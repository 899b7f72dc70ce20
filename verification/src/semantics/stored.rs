//! What semantic analysis stores: every function that a module declares,
//! each under its own signature.

use vstd::prelude::*;
use crate::absy::{Module, Symbol, SymbolDeclarationNode};
use crate::collections::{lemma_named_position, lemma_named_position_is, named_position};
use crate::field::Field;
use crate::parser::Position;
use crate::semantics::functions::checked_function;
use crate::semantics::declared::resolved_struct;
use crate::semantics::declared_type;
use crate::semantics::modules::{
    Progress, checked_module, checked_program, checked_symbol, checked_symbols, declared_function,
    declared_struct, function_candidates, imported_functions, new_checker, renamed,
};
use crate::semantics::symbols::{
    SymbolTypeView, UnifierView, has_signature, lemma_symbol_position, lemma_symbol_position_is,
    symbol_position, with_function, with_type,
};
use crate::semantics::scope::CheckerView;
use crate::semantics::state::{
    StateView, key_position, lemma_key_position, with_module, with_named,
};
use crate::typed_absy::program::{TypedFunctionSymbolView, TypedModuleView};
use crate::typed_absy::types::{
    FunctionKeyView, SignatureView, TypeView, law_same_type_reflexive, law_same_type_transitive,
    same_signature, same_type, same_types,
};

verus! {

/// Whether every function among the symbols stands under a key with the
/// signature of the function.
pub open spec fn keyed(functions: Seq<(FunctionKeyView, TypedFunctionSymbolView)>) -> bool {
    forall|i: int|
        0 <= i < functions.len() ==> match (#[trigger] functions[i]).1 {
            TypedFunctionSymbolView::Here(f) => same_signature(functions[i].0.signature, f.signature),
            _ => true,
        }
}

/// Whether every function of every module stands under a key with the
/// signature of the function.
pub open spec fn all_keyed(modules: Seq<(Seq<char>, TypedModuleView)>) -> bool {
    forall|i: int| 0 <= i < modules.len() ==> keyed((#[trigger] modules[i]).1.functions)
}

proof fn lemma_same_types_reflexive(types: Seq<TypeView>)
    ensures
        same_types(types, types),
{
    assert forall|i: int| 0 <= i < types.len() implies #[trigger] same_type(types[i], types[i]) by {
        law_same_type_reflexive(types[i]);
    }
}

proof fn lemma_declared(
    p: Progress,
    pos: (Position, Position),
    id: Seq<char>,
    module: Seq<char>,
    signature: SignatureView,
    symbol: TypedFunctionSymbolView,
)
    requires
        keyed(p.functions),
        symbol matches TypedFunctionSymbolView::Here(f) ==> f.signature == signature,
    ensures
        keyed(declared_function(p, pos, id, module, signature, symbol).functions),
        declared_function(p, pos, id, module, signature, symbol).state == p.state,
{
    let key = FunctionKeyView { id, signature };
    let at = key_position(p.functions, key);
    lemma_key_position(p.functions, key);
    lemma_same_types_reflexive(signature.inputs);
    lemma_same_types_reflexive(signature.outputs);
    let after = declared_function(p, pos, id, module, signature, symbol).functions;
    assert forall|i: int| 0 <= i < after.len() implies match (#[trigger] after[i]).1 {
        TypedFunctionSymbolView::Here(f) => same_signature(after[i].0.signature, f.signature),
        _ => true,
    } by {
        if i != at {
            assert(after[i] == p.functions[i]);
        }
    }
}

proof fn lemma_imported(
    p: Progress,
    pos: (Position, Position),
    id: Seq<char>,
    module: Seq<char>,
    from: Seq<char>,
    candidates: Seq<FunctionKeyView>,
    n: nat,
)
    requires
        keyed(p.functions),
    ensures
        keyed(imported_functions(p, pos, id, module, from, candidates, n).functions),
        imported_functions(p, pos, id, module, from, candidates, n).state == p.state,
    decreases n,
{
    if !(n == 0 || n > candidates.len()) {
        lemma_imported(p, pos, id, module, from, candidates, (n - 1) as nat);
        lemma_declared(
            imported_functions(p, pos, id, module, from, candidates, (n - 1) as nat),
            pos,
            id,
            module,
            candidates[n - 1].signature,
            TypedFunctionSymbolView::There(candidates[n - 1], from),
        );
    }
}

proof fn lemma_symbol<T: Field>(p: Progress, d: &SymbolDeclarationNode, module: Seq<char>, fuel: nat)
    requires
        keyed(p.functions),
        all_keyed(p.state.typed_modules),
    ensures
        keyed(checked_symbol::<T>(p, d, module, fuel).functions),
        all_keyed(checked_symbol::<T>(p, d, module, fuel).state.typed_modules),
    decreases fuel, 1nat, 0nat,
{
    let pos = (d.start, d.end);
    let id = d.value.id@;
    match d.value.symbol {
        Symbol::HereType(t) => {},
        Symbol::HereFunction(f) => {
            let outcome = checked_function::<T>(
                p.checker,
                &f,
                module,
                p.state.types,
            );
            match outcome.1 {
                Ok(funct) => {
                    lemma_declared(
                        Progress { checker: outcome.0, ..p },
                        pos,
                        id,
                        module,
                        funct.signature,
                        TypedFunctionSymbolView::Here(funct),
                    );
                },
                Err(_) => {},
            }
        },
        Symbol::There(import) => {
            lemma_module::<T>(p.state, new_checker(), import.value.module_id@, fuel);
            let sub = checked_module::<T>(p.state, new_checker(), import.value.module_id@, fuel);
            if sub.result is Ok {
                let from = import.value.module_id@;
                let name = import.value.symbol_id@;
                let q = Progress { state: sub.state, ..p };
                let candidates = function_candidates(q.state.typed_modules, from, name);
                let known = Progress {
                    state: StateView { types: with_module(q.state.types, from), ..q.state },
                    ..q
                };
                lemma_imported(
                    known,
                    (import.start, import.end),
                    id,
                    module,
                    from,
                    candidates,
                    candidates.len(),
                );
            }
        },
        Symbol::Flat(e) => {
            lemma_declared(
                p,
                pos,
                id,
                module,
                e@.signature,
                TypedFunctionSymbolView::Flat(e@),
            );
        },
    }
}

proof fn lemma_symbols<T: Field>(
    p: Progress,
    list: &Vec<SymbolDeclarationNode>,
    n: nat,
    module: Seq<char>,
    fuel: nat,
)
    requires
        keyed(p.functions),
        all_keyed(p.state.typed_modules),
    ensures
        keyed(checked_symbols::<T>(p, list, n, module, fuel).functions),
        all_keyed(checked_symbols::<T>(p, list, n, module, fuel).state.typed_modules),
    decreases fuel, 2nat, n,
{
    if !(n == 0 || n > list.len()) {
        lemma_symbols::<T>(p, list, (n - 1) as nat, module, fuel);
        lemma_symbol::<T>(
            checked_symbols::<T>(p, list, (n - 1) as nat, module, fuel),
            &list[n - 1],
            module,
            fuel,
        );
    }
}

proof fn lemma_module<T: Field>(st: StateView, c: CheckerView, module: Seq<char>, fuel: nat)
    requires
        all_keyed(st.typed_modules),
    ensures
        all_keyed(checked_module::<T>(st, c, module, fuel).state.typed_modules),
    decreases fuel, 0nat, 0nat,
{
    let at = named_position(st.modules, module);
    if 0 <= at < st.modules.len() && fuel > 0 {
        let entered = StateView {
            modules: st.modules.remove(at),
            types: with_module(st.types, module),
            ..st
        };
        let start = Progress {
            state: entered,
            checker: c,
            functions: Seq::empty(),
            unifier: Seq::empty(),
            errors: Seq::empty(),
        };
        lemma_symbols::<T>(
            start,
            &st.modules[at].1.symbols,
            st.modules[at].1.symbols.len() as nat,
            module,
            (fuel - 1) as nat,
        );
        let done = checked_symbols::<T>(
            start,
            &st.modules[at].1.symbols,
            st.modules[at].1.symbols.len() as nat,
            module,
            (fuel - 1) as nat,
        );
        if done.errors.len() == 0 {
            let typed = done.state.typed_modules;
            let k = named_position(typed, module);
            lemma_named_position(typed, module);
            let after = checked_module::<T>(st, c, module, fuel).state.typed_modules;
            assert(after == with_named(
                typed,
                module,
                TypedModuleView { functions: done.functions },
            ));
            assert forall|i: int| 0 <= i < after.len() implies keyed(
                (#[trigger] after[i]).1.functions,
            ) by {
                if i != k {
                    assert(after[i] == typed[i]);
                } else {
                    assert(after[i].1.functions == done.functions);
                }
            }
        }
    }
}

/// In a program that was checked without error, every function stands
/// under a key with the signature of the function.
pub proof fn law_stored_signatures<T: Field>(
    modules: Seq<(Seq<char>, Module)>,
    main: Seq<char>,
    c: CheckerView,
)
    ensures
        checked_program::<T>(modules, main, c).1 matches Ok(p) ==> all_keyed(p.modules),
{
    lemma_module::<T>(
        StateView { modules, typed_modules: Seq::empty(), types: Map::empty() },
        c,
        main,
        modules.len(),
    );
}

/// Whether the names know the key: the name of the key stands for
/// functions, one of them with the signature of the key.
pub open spec fn known_to(u: UnifierView, key: FunctionKeyView) -> bool {
    let at = symbol_position(u, key.id);
    0 <= at < u.len() && match u[at].1 {
        SymbolTypeView::Functions(known) => has_signature(known, key.signature),
        SymbolTypeView::Type => false,
    }
}

/// Whether the names know the key of every symbol of the module so far.
pub open spec fn in_step(p: Progress) -> bool {
    forall|i: int| 0 <= i < p.functions.len() ==> known_to(p.unifier, (#[trigger] p.functions[i]).0)
}

/// Whether the symbols `a` are the first of the symbols `b`.
pub open spec fn first_of(
    a: Seq<(FunctionKeyView, TypedFunctionSymbolView)>,
    b: Seq<(FunctionKeyView, TypedFunctionSymbolView)>,
) -> bool {
    a.len() <= b.len() && forall|i: int| 0 <= i < a.len() ==> a[i] == b[i]
}

proof fn lemma_same_signature_transitive(a: SignatureView, b: SignatureView, c: SignatureView)
    requires
        same_signature(a, b),
        same_signature(b, c),
    ensures
        same_signature(a, c),
{
    assert forall|i: int| 0 <= i < a.inputs.len() implies #[trigger] same_type(
        a.inputs[i],
        c.inputs[i],
    ) by {
        assert(same_type(a.inputs[i], b.inputs[i]));
        assert(same_type(b.inputs[i], c.inputs[i]));
        law_same_type_transitive(a.inputs[i], b.inputs[i], c.inputs[i]);
    }
    assert forall|i: int| 0 <= i < a.outputs.len() implies #[trigger] same_type(
        a.outputs[i],
        c.outputs[i],
    ) by {
        assert(same_type(a.outputs[i], b.outputs[i]));
        assert(same_type(b.outputs[i], c.outputs[i]));
        law_same_type_transitive(a.outputs[i], b.outputs[i], c.outputs[i]);
    }
}

/// What a name stands for after another name was declared.
proof fn lemma_other_name(u: UnifierView, after: UnifierView, id: Seq<char>, other: Seq<char>)
    requires
        other != id,
        after.len() >= u.len(),
        forall|j: int| 0 <= j < u.len() ==> (#[trigger] after[j]).0 == u[j].0,
        forall|j: int| 0 <= j < u.len() && u[j].0 != id ==> #[trigger] after[j] == u[j],
        forall|j: int| u.len() <= j < after.len() ==> (#[trigger] after[j]).0 == id,
        symbol_position(u, other) < u.len(),
    ensures
        symbol_position(after, other) == symbol_position(u, other),
        after[symbol_position(u, other)] == u[symbol_position(u, other)],
{
    lemma_symbol_position(u, other);
    let at = symbol_position(u, other);
    assert forall|j: int| 0 <= j < at implies (#[trigger] after[j]).0 != other by {
        assert(u[j].0 != other);
    }
    assert(after[at] == u[at]);
    lemma_symbol_position_is(after, other, at);
}

/// A function that is declared without a conflict comes last among the
/// symbols, and the names know every key as before.
proof fn lemma_declared_kept(
    p: Progress,
    pos: (Position, Position),
    id: Seq<char>,
    module: Seq<char>,
    signature: SignatureView,
    symbol: TypedFunctionSymbolView,
)
    requires
        in_step(p),
    ensures
        declared_function(p, pos, id, module, signature, symbol).errors.len() >= p.errors.len(),
        declared_function(p, pos, id, module, signature, symbol).errors.len() == p.errors.len()
            ==> in_step(declared_function(p, pos, id, module, signature, symbol))
            && declared_function(p, pos, id, module, signature, symbol).functions
            == p.functions.push((FunctionKeyView { id, signature }, symbol)),
{
    let q = declared_function(p, pos, id, module, signature, symbol);
    let key = FunctionKeyView { id, signature };
    let u = p.unifier;
    let accepted = with_function(u, id, signature).1;
    if accepted {
        assert(q.errors =~= p.errors);
        lemma_symbol_position(u, id);
        lemma_key_position(p.functions, key);
        let at = key_position(p.functions, key);
        if at < p.functions.len() {
            let there = p.functions[at].0;
            assert(known_to(u, there));
            let known = u[symbol_position(u, id)].1->Functions_0;
            let k = choose|k: int|
                0 <= k < known.len() && same_signature(#[trigger] known[k], there.signature);
            lemma_same_signature_transitive(known[k], there.signature, signature);
            assert(has_signature(known, signature));
            assert(false);
        }
        let after = q.unifier;
        let w = symbol_position(u, id);
        lemma_same_types_reflexive(signature.inputs);
        lemma_same_types_reflexive(signature.outputs);
        assert forall|j: int| 0 <= j < w implies (#[trigger] after[j]).0 != id by {
            assert(u[j].0 != id);
        }
        lemma_symbol_position_is(after, id, w);
        assert forall|i: int| 0 <= i < q.functions.len() implies known_to(
            after,
            (#[trigger] q.functions[i]).0,
        ) by {
            let other = q.functions[i].0;
            if i < p.functions.len() {
                assert(q.functions[i] == p.functions[i]);
                assert(known_to(u, other));
                if other.id != id {
                    lemma_other_name(u, after, id, other.id);
                } else {
                    let known = u[w].1->Functions_0;
                    let k = choose|k: int|
                        0 <= k < known.len() && same_signature(
                            #[trigger] known[k],
                            other.signature,
                        );
                    assert(known.push(signature)[k] == known[k]);
                }
            } else {
                if w < u.len() {
                    let known = u[w].1->Functions_0;
                    assert(known.push(signature)[known.len() as int] == signature);
                } else {
                    assert(seq![signature][0] == signature);
                }
            }
        }
    } else {
        assert(q.errors.len() == p.errors.len() + 1);
    }
}

/// Functions that are imported without a conflict come behind the symbols
/// that were there, and the names know every key as before.
proof fn lemma_imported_kept(
    p: Progress,
    pos: (Position, Position),
    id: Seq<char>,
    module: Seq<char>,
    from: Seq<char>,
    candidates: Seq<FunctionKeyView>,
    n: nat,
)
    requires
        in_step(p),
    ensures
        imported_functions(p, pos, id, module, from, candidates, n).errors.len() >= p.errors.len(),
        imported_functions(p, pos, id, module, from, candidates, n).errors.len() == p.errors.len()
            ==> in_step(imported_functions(p, pos, id, module, from, candidates, n)) && first_of(
            p.functions,
            imported_functions(p, pos, id, module, from, candidates, n).functions,
        ),
    decreases n,
{
    if !(n == 0 || n > candidates.len()) {
        let before = imported_functions(p, pos, id, module, from, candidates, (n - 1) as nat);
        lemma_imported_kept(p, pos, id, module, from, candidates, (n - 1) as nat);
        if before.errors.len() == p.errors.len() {
            lemma_declared_kept(
                before,
                pos,
                id,
                module,
                candidates[n - 1].signature,
                TypedFunctionSymbolView::There(candidates[n - 1], from),
            );
        }
    }
}

/// What a declaration that is checked leaves of the symbols that were
/// there: all of them, where nothing is wrong; and the function it
/// declares comes last.
proof fn lemma_symbol_kept<T: Field>(
    p: Progress,
    d: &SymbolDeclarationNode,
    module: Seq<char>,
    fuel: nat,
)
    requires
        in_step(p),
    ensures
        checked_symbol::<T>(p, d, module, fuel).errors.len() >= p.errors.len(),
        checked_symbol::<T>(p, d, module, fuel).errors.len() == 0 ==> in_step(
            checked_symbol::<T>(p, d, module, fuel),
        ) && first_of(p.functions, checked_symbol::<T>(p, d, module, fuel).functions),
        checked_symbol::<T>(p, d, module, fuel).errors.len() == 0 ==> (d.value.symbol matches Symbol::HereFunction(
            f,
        ) ==> checked_function::<T>(p.checker, &f, module, p.state.types).1 matches Ok(funct)
            && checked_symbol::<T>(p, d, module, fuel).functions == p.functions.push(
            (
                FunctionKeyView { id: d.value.id@, signature: funct.signature },
                TypedFunctionSymbolView::Here(funct),
            ),
        )),
{
    let pos = (d.start, d.end);
    let id = d.value.id@;
    let q = checked_symbol::<T>(p, d, module, fuel);
    match d.value.symbol {
        Symbol::HereType(t) => {
            match resolved_struct(id, &t, module, p.state.types) {
                Ok(ty) => {
                    lemma_struct_kept(p, pos, id, module, ty);
                },
                Err(e) => {},
            }
        },
        Symbol::HereFunction(f) => {
            let outcome = checked_function::<T>(p.checker, &f, module, p.state.types);
            match outcome.1 {
                Ok(funct) => {
                    lemma_declared_kept(
                        Progress { checker: outcome.0, ..p },
                        pos,
                        id,
                        module,
                        funct.signature,
                        TypedFunctionSymbolView::Here(funct),
                    );
                },
                Err(e) => {
                    assert(e.len() > 0);
                },
            }
        },
        Symbol::There(import) => {
            let sub = checked_module::<T>(p.state, new_checker(), import.value.module_id@, fuel);
            if sub.result is Ok {
                let from = import.value.module_id@;
                let name = import.value.symbol_id@;
                let at = (import.start, import.end);
                let r = Progress { state: sub.state, ..p };
                let candidates = function_candidates(r.state.typed_modules, from, name);
                let types = with_module(r.state.types, from);
                let known = Progress { state: StateView { types, ..r.state }, ..r };
                assert(in_step(known));
                if candidates.len() == 0 {
                    match declared_type(types, from, name) {
                        Some(t) => {
                            lemma_struct_kept(known, at, id, module, renamed(t, module, id));
                        },
                        None => {},
                    }
                } else {
                    lemma_imported_kept(known, at, id, module, from, candidates, candidates.len());
                }
            }
        },
        Symbol::Flat(e) => {
            lemma_declared_kept(
                p,
                pos,
                id,
                module,
                e@.signature,
                TypedFunctionSymbolView::Flat(e@),
            );
        },
    }
}

/// A type that is declared without a conflict leaves the symbols as they
/// are, and the names know every key as before.
proof fn lemma_struct_kept(
    p: Progress,
    pos: (Position, Position),
    id: Seq<char>,
    module: Seq<char>,
    ty: TypeView,
)
    requires
        in_step(p),
    ensures
        declared_struct(p, pos, id, module, ty).errors.len() >= p.errors.len(),
        declared_struct(p, pos, id, module, ty).functions == p.functions,
        declared_struct(p, pos, id, module, ty).errors.len() == p.errors.len() ==> in_step(
            declared_struct(p, pos, id, module, ty),
        ),
{
    let q = declared_struct(p, pos, id, module, ty);
    let u = p.unifier;
    if with_type(u, id).1 {
        assert(q.errors =~= p.errors);
        lemma_symbol_position(u, id);
        assert forall|i: int| 0 <= i < q.functions.len() implies known_to(
            q.unifier,
            (#[trigger] q.functions[i]).0,
        ) by {
            let other = q.functions[i].0;
            assert(known_to(u, other));
            lemma_other_name(u, q.unifier, id, other.id);
        }
    } else {
        assert(q.errors.len() == p.errors.len() + 1);
    }
}

/// What the declarations of a module leave of the symbols that were there:
/// all of them, where nothing is wrong.
proof fn lemma_symbols_kept<T: Field>(
    p: Progress,
    list: &Vec<SymbolDeclarationNode>,
    n: nat,
    module: Seq<char>,
    fuel: nat,
)
    requires
        in_step(p),
        n <= list.len(),
    ensures
        checked_symbols::<T>(p, list, n, module, fuel).errors.len() >= p.errors.len(),
        checked_symbols::<T>(p, list, n, module, fuel).errors.len() == 0 ==> in_step(
            checked_symbols::<T>(p, list, n, module, fuel),
        ) && first_of(p.functions, checked_symbols::<T>(p, list, n, module, fuel).functions),
    decreases n,
{
    if n > 0 {
        lemma_symbols_kept::<T>(p, list, (n - 1) as nat, module, fuel);
        let before = checked_symbols::<T>(p, list, (n - 1) as nat, module, fuel);
        if before.errors.len() == 0 {
            lemma_symbol_kept::<T>(before, &list[n - 1], module, fuel);
        } else {
            lemma_symbol_grows::<T>(before, &list[n - 1], module, fuel);
        }
    }
}

/// What is wrong stays wrong.
proof fn lemma_symbol_grows<T: Field>(
    p: Progress,
    d: &SymbolDeclarationNode,
    module: Seq<char>,
    fuel: nat,
)
    ensures
        checked_symbol::<T>(p, d, module, fuel).errors.len() >= p.errors.len(),
{
    match d.value.symbol {
        Symbol::There(import) => {
            let sub = checked_module::<T>(p.state, new_checker(), import.value.module_id@, fuel);
            if sub.result is Ok {
                let from = import.value.module_id@;
                let name = import.value.symbol_id@;
                let r = Progress { state: sub.state, ..p };
                let candidates = function_candidates(r.state.typed_modules, from, name);
                let types = with_module(r.state.types, from);
                let known = Progress { state: StateView { types, ..r.state }, ..r };
                lemma_imported_grows(
                    known,
                    (import.start, import.end),
                    d.value.id@,
                    module,
                    from,
                    candidates,
                    candidates.len(),
                );
            }
        },
        _ => {},
    }
}

proof fn lemma_imported_grows(
    p: Progress,
    pos: (Position, Position),
    id: Seq<char>,
    module: Seq<char>,
    from: Seq<char>,
    candidates: Seq<FunctionKeyView>,
    n: nat,
)
    ensures
        imported_functions(p, pos, id, module, from, candidates, n).errors.len() >= p.errors.len(),
    decreases n,
{
    if !(n == 0 || n > candidates.len()) {
        lemma_imported_grows(p, pos, id, module, from, candidates, (n - 1) as nat);
    }
}

/// In a module whose declarations are checked without error, every
/// function that is declared stands among the symbols of the module, in
/// the place that was free when it was declared: as it was checked then,
/// under its name and the signature it was checked to have.
pub proof fn law_declared_functions_stored<T: Field>(
    p: Progress,
    list: &Vec<SymbolDeclarationNode>,
    n: nat,
    k: nat,
    module: Seq<char>,
    fuel: nat,
)
    requires
        in_step(p),
        k < n <= list.len(),
        list[k as int].value.symbol is HereFunction,
        checked_symbols::<T>(p, list, n, module, fuel).errors.len() == 0,
    ensures
        ({
            let before = checked_symbols::<T>(p, list, k, module, fuel);
            let after = checked_symbols::<T>(p, list, n, module, fuel);
            let f = list[k as int].value.symbol->HereFunction_0;
            let outcome = checked_function::<T>(before.checker, &f, module, before.state.types);
            &&& outcome.1 is Ok
            &&& before.functions.len() < after.functions.len()
            &&& after.functions[before.functions.len() as int] == (
                FunctionKeyView {
                    id: list[k as int].value.id@,
                    signature: outcome.1->Ok_0.signature,
                },
                TypedFunctionSymbolView::Here(outcome.1->Ok_0),
            )
        }),
    decreases n,
{
    let last = checked_symbols::<T>(p, list, (n - 1) as nat, module, fuel);
    lemma_symbols_kept::<T>(p, list, (n - 1) as nat, module, fuel);
    if last.errors.len() > 0 {
        lemma_symbol_grows::<T>(last, &list[n - 1], module, fuel);
    }
    lemma_symbol_kept::<T>(last, &list[n - 1], module, fuel);
    if k + 1 < n {
        law_declared_functions_stored::<T>(p, list, (n - 1) as nat, k, module, fuel);
    }
}

/// What is known when the checking of the declarations of a pending
/// module starts: the module has left the pending modules and has an entry
/// in the type map, and it has no symbols and no names yet.
pub open spec fn module_start(st: StateView, c: CheckerView, module: Seq<char>) -> Progress {
    Progress {
        state: StateView {
            modules: st.modules.remove(named_position(st.modules, module)),
            types: with_module(st.types, module),
            ..st
        },
        checker: c,
        functions: Seq::empty(),
        unifier: Seq::empty(),
        errors: Seq::empty(),
    }
}

/// A module that is checked without error has every function that it
/// declares: as the function was checked when its declaration was reached,
/// under its name and the signature it was checked to have, in the place
/// that was free among the symbols then.
pub proof fn law_module_stores_functions<T: Field>(
    st: StateView,
    c: CheckerView,
    module: Seq<char>,
    fuel: nat,
    k: nat,
)
    requires
        fuel > 0,
        0 <= named_position(st.modules, module) < st.modules.len(),
        k < st.modules[named_position(st.modules, module)].1.symbols.len(),
        st.modules[named_position(st.modules, module)].1.symbols[k as int].value.symbol
            is HereFunction,
        checked_module::<T>(st, c, module, fuel).result is Ok,
    ensures
        ({
            let list = &st.modules[named_position(st.modules, module)].1.symbols;
            let before = checked_symbols::<T>(
                module_start(st, c, module),
                list,
                k,
                module,
                (fuel - 1) as nat,
            );
            let f = list[k as int].value.symbol->HereFunction_0;
            let outcome = checked_function::<T>(before.checker, &f, module, before.state.types);
            let typed = checked_module::<T>(st, c, module, fuel).state.typed_modules;
            let at = named_position(typed, module);
            &&& outcome.1 is Ok
            &&& 0 <= at < typed.len()
            &&& before.functions.len() < typed[at].1.functions.len()
            &&& typed[at].1.functions[before.functions.len() as int] == (
                FunctionKeyView {
                    id: list[k as int].value.id@,
                    signature: outcome.1->Ok_0.signature,
                },
                TypedFunctionSymbolView::Here(outcome.1->Ok_0),
            )
        }),
{
    let list = &st.modules[named_position(st.modules, module)].1.symbols;
    let start = module_start(st, c, module);
    let done = checked_symbols::<T>(start, list, list.len() as nat, module, (fuel - 1) as nat);
    assert(done.errors.len() == 0);
    law_declared_functions_stored::<T>(
        start,
        list,
        list.len() as nat,
        k,
        module,
        (fuel - 1) as nat,
    );
    let typed = done.state.typed_modules;
    let value = TypedModuleView { functions: done.functions };
    let after = with_named(typed, module, value);
    lemma_named_position(typed, module);
    let at = named_position(typed, module);
    assert forall|j: int| 0 <= j < at implies (#[trigger] after[j]).0 != module by {
        assert(typed[j].0 != module);
    }
    assert(after[at] == (module, value));
    lemma_named_position_is(after, module, at);
}

/// In a program that was checked without error, the main module has every
/// function that it declares: as the function was checked when its
/// declaration was reached, under its name and the signature it was checked
/// to have.
pub proof fn law_main_module_functions<T: Field>(
    modules: Seq<(Seq<char>, Module)>,
    main: Seq<char>,
    c: CheckerView,
    k: nat,
)
    requires
        0 <= named_position(modules, main) < modules.len(),
        k < modules[named_position(modules, main)].1.symbols.len(),
        modules[named_position(modules, main)].1.symbols[k as int].value.symbol is HereFunction,
        checked_program::<T>(modules, main, c).1 is Ok,
    ensures
        ({
            let st = StateView { modules, typed_modules: Seq::empty(), types: Map::empty() };
            let list = &modules[named_position(modules, main)].1.symbols;
            let before = checked_symbols::<T>(
                module_start(st, c, main),
                list,
                k,
                main,
                (modules.len() - 1) as nat,
            );
            let f = list[k as int].value.symbol->HereFunction_0;
            let outcome = checked_function::<T>(before.checker, &f, main, before.state.types);
            let typed = checked_program::<T>(modules, main, c).1->Ok_0.modules;
            let at = named_position(typed, main);
            &&& outcome.1 is Ok
            &&& 0 <= at < typed.len()
            &&& before.functions.len() < typed[at].1.functions.len()
            &&& typed[at].1.functions[before.functions.len() as int] == (
                FunctionKeyView {
                    id: list[k as int].value.id@,
                    signature: outcome.1->Ok_0.signature,
                },
                TypedFunctionSymbolView::Here(outcome.1->Ok_0),
            )
        }),
{
    let st = StateView { modules, typed_modules: Seq::empty(), types: Map::empty() };
    law_module_stores_functions::<T>(st, c, main, modules.len(), k);
}

} // verus!
