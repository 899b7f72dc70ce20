//! Checking declarations, modules and programs.

use vstd::prelude::*;
use crate::absy::{Module, Program, Symbol, SymbolDeclarationNode};
use crate::collections::{StringMap, lemma_named_positions_agree, lemma_position_of, position_of};
use crate::field::Field;
use crate::parser::Position;
use crate::semantics::messages::make_error;
use crate::semantics::modules::{
    ModuleOutcome, Progress, checked_module, checked_program, checked_symbol, checked_symbols,
    conflict_errors, declaration_formed, declaration_weight, declarations_weight, declared_function,
    declared_struct, function_candidates, imported, imported_functions, keys_named, main_count,
    module_checkable, new_checker, pending_checkable, renamed, single_main,
};
use crate::semantics::scope::Checker;
use crate::semantics::state::{
    StateView, declare_type, ensure_module, lemma_key_positions_agree, lemma_structs_only_declared,
    pending_view, type_map_wf,
};
use crate::semantics::symbols::SymbolUnifier;
use crate::semantics::{
    Error, ErrorInner, ErrorView, State, TypeMap, declared_type, errors_view, in_file,
    inner_errors_view, structs_only,
};
use crate::text::{str_eq, usize_to_dec};
use crate::typed_absy::program::{
    TypedFunctionSymbol, TypedFunctionSymbols, TypedModule, TypedProgram, modules_view,
    symbols_view,
};
use crate::typed_absy::types::{
    FunctionKey, FunctionKeyView, Signature, Type, TypeView,
};

verus! {

/// Moves the errors of `more` to the end of `errors`, each as found in the
/// module `id`.
fn extend_in_file(errors: &mut Vec<Error>, more: Vec<ErrorInner>, id: &String)
    ensures
        errors_view(final(errors)@) == errors_view(old(errors)@) + in_file(
            inner_errors_view(more@),
            id@,
        ),
{
    let ghost start = errors_view(errors@);
    let ghost all = more;
    assert(start + in_file(inner_errors_view(all@), id@).take(0) =~= start);
    for e in it: more
        invariant
            it.seq() == all@,
            errors_view(errors@) == start + in_file(inner_errors_view(all@), id@).take(
                it.index() as int,
            ),
    {
        let ghost before = errors_view(errors@);
        assert(e == all[it.index() as int]);
        let located = e.in_file(id);
        errors.push(located);
        assert(errors_view(errors@) =~= before.push(located@));
        assert(in_file(inner_errors_view(all@), id@).take(it.index() + 1) =~= in_file(
            inner_errors_view(all@),
            id@,
        ).take(it.index() as int).push(located@));
    }
    assert(in_file(inner_errors_view(all@), id@).take(all.len() as int) =~= in_file(
        inner_errors_view(all@),
        id@,
    ));
}

/// Moves the errors of `more` to the end of `errors`.
fn extend_errors(errors: &mut Vec<Error>, more: Vec<Error>)
    ensures
        errors_view(final(errors)@) == errors_view(old(errors)@) + errors_view(more@),
{
    let mut more = more;
    let ghost a = errors@;
    let ghost b = more@;
    errors.append(&mut more);
    assert(errors_view(errors@) =~= errors_view(a) + errors_view(b));
}

/// Adds the error of a name that stands for something else already, unless
/// the name was accepted.
fn push_conflict(
    errors: &mut Vec<Error>,
    accepted: bool,
    pos: (Position, Position),
    id: &String,
    module_id: &String,
)
    ensures
        errors_view(final(errors)@) == errors_view(old(errors)@) + conflict_errors(
            accepted,
            pos,
            id@,
            module_id@,
        ),
{
    let ghost start = errors_view(errors@);
    if accepted {
        assert(start + Seq::<ErrorView>::empty() =~= start);
    } else {
        let mut message = id.clone();
        message.append(" conflicts with another symbol");
        let e = make_error(pos, message).in_file(module_id);
        errors.push(e);
        assert(errors_view(errors@) =~= start + seq![e@]);
    }
}

/// The keys of the functions called `name` that a typed module has.
fn find_candidates<T: Field>(typed: &StringMap<TypedModule<T>>, module: &String, name: &String) -> (r:
    Vec<FunctionKey>)
    ensures
        crate::semantics::query::keys_view(r@) == function_candidates(
            modules_view(typed.entries@),
            module@,
            name@,
        ),
{
    let ghost views = modules_view(typed.entries@);
    proof {
        lemma_named_positions_agree(typed.entries@, views, module@);
    }
    let mut out: Vec<FunctionKey> = Vec::new();
    assert(crate::semantics::query::keys_view(out@) =~= Seq::<FunctionKeyView>::empty());
    match typed.find(module.as_str()) {
        Some(at) => {
            let functions = &typed.entries[at].1.functions;
            let ghost symbols = symbols_view(functions.entries@);
            assert(views[at as int].1.functions == symbols);
            let mut i: usize = 0;
            while i < functions.entries.len()
                invariant
                    i <= functions.entries.len(),
                    symbols == symbols_view(functions.entries@),
                    crate::semantics::query::keys_view(out@) == keys_named(
                        symbols,
                        name@,
                        i as nat,
                    ),
                decreases functions.entries.len() - i,
            {
                let ghost before = crate::semantics::query::keys_view(out@);
                let key = &functions.entries[i].0;
                assert(symbols[i as int].0 == key@);
                if key.id == *name {
                    let copy = key.clone();
                    out.push(copy);
                    assert(crate::semantics::query::keys_view(out@) =~= before.push(key@));
                }
                i += 1;
            }
            out
        },
        None => out,
    }
}

/// What the type map says of a name in a module.
fn find_type(types: &TypeMap, module: &String, name: &String) -> (r: Option<Type>)
    ensures
        match r {
            Some(t) => declared_type(types@, module@, name@) == Some(t@),
            None => declared_type(types@, module@, name@) is None,
        },
{
    match types.get(module.as_str()) {
        Some(known) => match known.get(name.as_str()) {
            Some(t) => Some(t.clone()),
            None => None,
        },
        None => None,
    }
}

impl Checker {
    /// Declares a function symbol under `id`: the name is unified, the
    /// function can be called, and the module has the symbol.
    fn declare_function<T: Field>(
        &mut self,
        pos: (Position, Position),
        id: &String,
        module_id: &String,
        signature: Signature,
        symbol: TypedFunctionSymbol<T>,
        functions: &mut TypedFunctionSymbols<T>,
        unifier: &mut SymbolUnifier,
        errors: &mut Vec<Error>,
        Ghost(st): Ghost<StateView>,
    )
        requires
            old(functions).wf(),
            old(unifier).wf(),
        ensures
            final(functions).wf(),
            final(unifier).wf(),
            final(self).level == old(self).level,
            (Progress {
                state: st,
                checker: final(self)@,
                functions: symbols_view(final(functions).entries@),
                unifier: final(unifier)@,
                errors: errors_view(final(errors)@),
            }) == declared_function(
                Progress {
                    state: st,
                    checker: old(self)@,
                    functions: symbols_view(old(functions).entries@),
                    unifier: old(unifier)@,
                    errors: errors_view(old(errors)@),
                },
                pos,
                id@,
                module_id@,
                signature@,
                symbol@,
            ),
    {
        let accepted = unifier.insert_function(id.as_str(), signature.clone());
        push_conflict(errors, accepted, pos, id, module_id);
        let key = FunctionKey { id: id.clone(), signature };
        self.insert_function(key.clone());
        let ghost before = functions.entries@;
        let ghost key_view = key@;
        let ghost symbol_view = symbol@;
        proof {
            lemma_key_positions_agree(before, key_view);
            crate::typed_absy::program::lemma_symbol_position(before, key_view);
        }
        let added = functions.insert(key, symbol);
        proof {
            let at = crate::typed_absy::program::symbol_position(before, key_view);
            let views = symbols_view(before);
            if added {
                assert(symbols_view(functions.entries@) =~= views.push((key_view, symbol_view)));
            } else {
                assert(symbols_view(functions.entries@) =~= views.update(
                    at,
                    (views[at].0, symbol_view),
                ));
            }
        }
    }

    /// Declares a struct type under `id`: the name is unified, and the
    /// module knows the type.
    fn declare_struct(
        pos: (Position, Position),
        id: &String,
        module_id: &String,
        ty: Type,
        types: &mut TypeMap,
        unifier: &mut SymbolUnifier,
        errors: &mut Vec<Error>,
        Ghost(p): Ghost<Progress>,
    )
        requires
            type_map_wf(old(types)),
            structs_only(old(types)@),
            old(unifier).wf(),
            ty is Struct,
            p.state.types == old(types)@,
            p.unifier == old(unifier)@,
            p.errors == errors_view(old(errors)@),
        ensures
            type_map_wf(final(types)),
            structs_only(final(types)@),
            final(unifier).wf(),
            declared_struct(p, pos, id@, module_id@, ty@) == (Progress {
                state: StateView { types: final(types)@, ..p.state },
                unifier: final(unifier)@,
                errors: errors_view(final(errors)@),
                ..p
            }),
    {
        let accepted = unifier.insert_type(id.as_str());
        push_conflict(errors, accepted, pos, id, module_id);
        proof {
            lemma_structs_only_declared(types@, module_id@, id@, ty@);
        }
        declare_type(types, module_id.as_str(), id.clone(), ty);
    }
}

/// What is known while the declarations of a module are checked.
pub open spec fn progress<T: Field>(
    state: &State<T>,
    checker: &Checker,
    functions: &TypedFunctionSymbols<T>,
    unifier: &SymbolUnifier,
    errors: &Vec<Error>,
) -> Progress {
    Progress {
        state: state@,
        checker: checker@,
        functions: symbols_view(functions.entries@),
        unifier: unifier@,
        errors: errors_view(errors@),
    }
}

/// A module that can be checked at some level can be checked at every
/// lower level.
pub proof fn lemma_pending_checkable(modules: Seq<(Seq<char>, Module)>, level: nat)
    requires
        pending_checkable(modules, level),
    ensures
        pending_checkable(modules, 0),
{
    assert forall|i: int| 0 <= i < modules.len() implies module_checkable(
        &(#[trigger] modules[i]).1,
        0,
    ) by {
        assert(module_checkable(&modules[i].1, level));
    }
}

/// The declarations of a prefix weigh no more than all declarations.
pub proof fn lemma_declarations_weight(list: &Vec<SymbolDeclarationNode>, n: nat, m: nat)
    requires
        n <= m <= list.len(),
    ensures
        declarations_weight(list, n) <= declarations_weight(list, m),
        n < m ==> declarations_weight(list, n) + declaration_weight(&list[n as int])
            <= declarations_weight(list, m),
    decreases m - n,
{
    if n < m {
        lemma_declarations_weight(list, n, (m - 1) as nat);
        if n + 1 < m {
            lemma_declarations_weight(list, (n + 1) as nat, m);
        }
    }
}

impl Checker {
    /// Imports `name` from the module `from`, which is checked, under
    /// `id`.
    fn import_symbol<T: Field>(
        &mut self,
        pos: (Position, Position),
        id: &String,
        module_id: &String,
        from: &String,
        name: &String,
        state: &mut State<T>,
        functions: &mut TypedFunctionSymbols<T>,
        unifier: &mut SymbolUnifier,
        errors: &mut Vec<Error>,
    )
        requires
            old(state).wf(),
            old(functions).wf(),
            old(unifier).wf(),
        ensures
            final(state).wf(),
            final(functions).wf(),
            final(unifier).wf(),
            final(state).modules == old(state).modules,
            final(self).level == old(self).level,
            progress(final(state), final(self), final(functions), final(unifier), final(errors))
                == imported(
                progress(old(state), old(self), old(functions), old(unifier), old(errors)),
                pos,
                id@,
                module_id@,
                from@,
                name@,
            ),
    {
        let ghost start = progress(state, self, functions, unifier, errors);
        let candidates = find_candidates(&state.typed_modules, from, name);
        proof {
            lemma_structs_only_declared(
                state.types@,
                from@,
                Seq::empty(),
                TypeView::Struct(arbitrary()),
            );
        }
        ensure_module(&mut state.types, from.as_str());
        let ghost known = Progress { state: state@, ..start };
        if candidates.len() == 0 {
            match find_type(&state.types, from, name) {
                Some(t) => {
                    let local = match t {
                        Type::Struct(st) => Type::Struct(st.renamed(module_id.clone(), id.clone())),
                        other => {
                            proof {
                                assert(declared_type(state.types@, from@, name@) is Some);
                                assert(false);
                            }
                            other
                        },
                    };
                    Checker::declare_struct(
                        pos,
                        id,
                        module_id,
                        local,
                        &mut state.types,
                        unifier,
                        errors,
                        Ghost(known),
                    );
                },
                None => {
                    let mut message = String::from_str("Could not find symbol ");
                    message.append(name.as_str());
                    message.append(" in module ");
                    message.append(from.as_str());
                    let e = make_error(pos, message).in_file(module_id);
                    let ghost before = errors_view(errors@);
                    errors.push(e);
                    assert(errors_view(errors@) =~= before + seq![e@]);
                },
            }
        } else {
            let ghost all = candidates;
            let ghost keys = crate::semantics::query::keys_view(all@);
            for candidate in it: candidates
                invariant
                    it.seq() == all@,
                    keys == crate::semantics::query::keys_view(all@),
                    state.wf(),
                    functions.wf(),
                    unifier.wf(),
                    state@ == known.state,
                    state.modules == old(state).modules,
                    self.level == old(self).level,
                    progress(state, self, functions, unifier, errors) == imported_functions(
                        known,
                        pos,
                        id@,
                        module_id@,
                        from@,
                        keys,
                        it.index() as nat,
                    ),
            {
                assert(candidate == all[it.index() as int]);
                assert(keys[it.index() as int] == candidate@);
                let signature = candidate.signature.clone();
                let symbol = TypedFunctionSymbol::There(candidate, from.clone());
                self.declare_function(
                    pos,
                    id,
                    module_id,
                    signature,
                    symbol,
                    functions,
                    unifier,
                    errors,
                    Ghost(state@),
                );
            }
        }
    }

    /// Checks a declaration; what is wrong with it goes to `errors`.
    fn check_declaration_into<T: Field>(
        &mut self,
        declaration: SymbolDeclarationNode,
        module_id: &String,
        state: &mut State<T>,
        functions: &mut TypedFunctionSymbols<T>,
        unifier: &mut SymbolUnifier,
        errors: &mut Vec<Error>,
        Ghost(fuel): Ghost<nat>,
    )
        requires
            old(state).wf(),
            old(functions).wf(),
            old(unifier).wf(),
            old(state).modules.entries.len() <= fuel,
            pending_checkable(old(state)@.modules, 0),
            declaration_formed(&declaration),
            old(self).level + declaration_weight(&declaration) <= usize::MAX,
        ensures
            final(state).wf(),
            final(functions).wf(),
            final(unifier).wf(),
            final(state).modules.entries.len() <= old(state).modules.entries.len(),
            pending_checkable(final(state)@.modules, 0),
            final(self).level <= old(self).level + declaration_weight(&declaration),
            progress(final(state), final(self), final(functions), final(unifier), final(errors))
                == checked_symbol::<T>(
                progress(old(state), old(self), old(functions), old(unifier), old(errors)),
                &declaration,
                module_id@,
                fuel,
            ),
        decreases fuel, 1nat,
    {
        let pos = declaration.pos();
        let ghost start = progress(state, self, functions, unifier, errors);
        let id = declaration.value.id;
        match declaration.value.symbol {
            Symbol::HereType(t) => {
                match self.check_struct_type_declaration(id.clone(), t, module_id, &state.types) {
                    Ok(ty) => {
                        Checker::declare_struct(
                            pos,
                            &id,
                            module_id,
                            ty,
                            &mut state.types,
                            unifier,
                            errors,
                            Ghost(start),
                        );
                    },
                    Err(e) => {
                        extend_in_file(errors, e, module_id);
                    },
                }
            },
            Symbol::HereFunction(f) => {
                match self.check_function(f, module_id, &state.types) {
                    Ok(funct) => {
                        let signature = funct.signature.clone();
                        self.declare_function(
                            pos,
                            &id,
                            module_id,
                            signature,
                            TypedFunctionSymbol::Here(funct),
                            functions,
                            unifier,
                            errors,
                            Ghost(state@),
                        );
                    },
                    Err(e) => {
                        extend_in_file(errors, e, module_id);
                    },
                }
            },
            Symbol::There(import) => {
                let pos = import.pos();
                let import = import.value;
                let mut other = Checker::new();
                match other.check_module_within(&import.module_id, state, Ghost(fuel)) {
                    Ok(()) => {
                        self.import_symbol(
                            pos,
                            &id,
                            module_id,
                            &import.module_id,
                            &import.symbol_id,
                            state,
                            functions,
                            unifier,
                            errors,
                        );
                    },
                    Err(e) => {
                        extend_errors(errors, e);
                    },
                }
            },
            Symbol::Flat(funct) => {
                let signature = funct.signature();
                self.declare_function(
                    pos,
                    &id,
                    module_id,
                    signature,
                    TypedFunctionSymbol::Flat(funct),
                    functions,
                    unifier,
                    errors,
                    Ghost(state@),
                );
            },
        }
    }

    /// Checks a declaration of a module.
    pub fn check_symbol_declaration<T: Field>(
        &mut self,
        declaration: SymbolDeclarationNode,
        module_id: &String,
        state: &mut State<T>,
        functions: &mut TypedFunctionSymbols<T>,
        symbol_unifier: &mut SymbolUnifier,
    ) -> (r: Result<(), Vec<Error>>)
        requires
            old(state).wf(),
            old(functions).wf(),
            old(symbol_unifier).wf(),
            pending_checkable(old(state)@.modules, 0),
            declaration_formed(&declaration),
            old(self).level + declaration_weight(&declaration) <= usize::MAX,
        ensures
            final(state).wf(),
            final(functions).wf(),
            final(symbol_unifier).wf(),
            (Progress {
                state: final(state)@,
                checker: final(self)@,
                functions: symbols_view(final(functions).entries@),
                unifier: final(symbol_unifier)@,
                errors: match r {
                    Ok(_) => Seq::empty(),
                    Err(e) => errors_view(e@),
                },
            }) == checked_symbol::<T>(
                Progress {
                    state: old(state)@,
                    checker: old(self)@,
                    functions: symbols_view(old(functions).entries@),
                    unifier: old(symbol_unifier)@,
                    errors: Seq::empty(),
                },
                &declaration,
                module_id@,
                old(state).modules.entries.len() as nat,
            ),
            r matches Err(e) ==> e.len() > 0,
    {
        let mut errors: Vec<Error> = Vec::new();
        assert(errors_view(errors@) =~= Seq::<ErrorView>::empty());
        let ghost fuel = state.modules.entries.len() as nat;
        self.check_declaration_into(
            declaration,
            module_id,
            state,
            functions,
            symbol_unifier,
            &mut errors,
            Ghost(fuel),
        );
        if errors.len() > 0 {
            return Err(errors);
        }
        assert(errors_view(errors@) =~= Seq::<ErrorView>::empty());
        Ok(())
    }

    /// Checks a module, with a bound on how many modules can be entered.
    fn check_module_within<T: Field>(
        &mut self,
        module_id: &String,
        state: &mut State<T>,
        Ghost(fuel): Ghost<nat>,
    ) -> (r: Result<(), Vec<Error>>)
        requires
            old(state).wf(),
            old(state).modules.entries.len() <= fuel,
            pending_checkable(old(state)@.modules, old(self).level as nat),
        ensures
            final(state).wf(),
            final(state).modules.entries.len() <= old(state).modules.entries.len(),
            pending_checkable(final(state)@.modules, 0),
            (ModuleOutcome {
                state: final(state)@,
                checker: final(self)@,
                result: match r {
                    Ok(_) => Ok(()),
                    Err(e) => Err(errors_view(e@)),
                },
            }) == checked_module::<T>(old(state)@, old(self)@, module_id@, fuel),
        decreases fuel, 0nat,
    {
        let ghost st = state@;
        let ghost before = state.modules.entries@;
        proof {
            lemma_named_positions_agree(before, st.modules, module_id@);
            lemma_position_of(before, module_id@);
            lemma_pending_checkable(st.modules, self.level as nat);
        }
        let module = match state.modules.remove(module_id.as_str()) {
            None => {
                return Ok(());
            },
            Some(module) => module,
        };
        let ghost at = position_of(before, module_id@);
        proof {
            assert(st.modules[at].1 == module);
            assert(module_checkable(&st.modules[at].1, self.level as nat));
            assert(pending_view(state.modules.entries@) =~= st.modules.remove(at));
            assert forall|i: int| 0 <= i < state@.modules.len() implies module_checkable(
                &(#[trigger] state@.modules[i]).1,
                0,
            ) by {
                let j = if i < at {
                    i
                } else {
                    i + 1
                };
                assert(state@.modules[i] == st.modules[j]);
                assert(module_checkable(&st.modules[j].1, 0));
            }
            lemma_structs_only_declared(
                state.types@,
                module_id@,
                Seq::empty(),
                TypeView::Struct(arbitrary()),
            );
        }
        ensure_module(&mut state.types, module_id.as_str());
        let mut symbol_unifier = SymbolUnifier::new();
        let mut checked_functions: TypedFunctionSymbols<T> = TypedFunctionSymbols::new();
        let mut errors: Vec<Error> = Vec::new();
        let ghost all = module.symbols;
        let ghost entered = progress(state, self, &checked_functions, &symbol_unifier, &errors);
        proof {
            assert(entered.functions =~= Seq::empty());
            assert(entered.errors =~= Seq::empty());
        }
        for declaration in it: module.symbols
            invariant
                it.seq() == all@,
                state.wf(),
                checked_functions.wf(),
                symbol_unifier.wf(),
                fuel > 0,
                state.modules.entries.len() <= fuel - 1,
                state.modules.entries.len() <= old(state).modules.entries.len(),
                pending_checkable(state@.modules, 0),
                forall|i: int| 0 <= i < all.len() ==> declaration_formed(#[trigger] &all[i]),
                old(self).level + declarations_weight(&all, all.len() as nat) <= usize::MAX,
                self.level <= old(self).level + declarations_weight(&all, it.index() as nat),
                progress(state, self, &checked_functions, &symbol_unifier, &errors)
                    == checked_symbols::<T>(
                    entered,
                    &all,
                    it.index() as nat,
                    module_id@,
                    (fuel - 1) as nat,
                ),
        {
            assert(declaration == all[it.index() as int]);
            proof {
                lemma_declarations_weight(&all, it.index() as nat, all.len() as nat);
                assert(declaration_formed(&all[it.index() as int]));
            }
            self.check_declaration_into(
                declaration,
                module_id,
                state,
                &mut checked_functions,
                &mut symbol_unifier,
                &mut errors,
                Ghost((fuel - 1) as nat),
            );
        }
        if errors.len() > 0 {
            return Err(errors);
        }
        let ghost typed_before = state.typed_modules.entries@;
        proof {
            lemma_named_positions_agree(
                typed_before,
                modules_view(typed_before),
                module_id@,
            );
            lemma_position_of(typed_before, module_id@);
        }
        let typed = TypedModule { functions: checked_functions };
        state.typed_modules.insert(module_id.clone(), typed);
        proof {
            let p = position_of(typed_before, module_id@);
            let views = modules_view(typed_before);
            if p < typed_before.len() {
                assert(modules_view(state.typed_modules.entries@) =~= views.update(
                    p,
                    (module_id@, typed@),
                ));
            } else {
                assert(modules_view(state.typed_modules.entries@) =~= views.push(
                    (module_id@, typed@),
                ));
            }
        }
        Ok(())
    }

    /// Checks a module, and before it the modules it imports from. A module
    /// that is not pending is left alone.
    pub fn check_module<T: Field>(&mut self, module_id: &String, state: &mut State<T>) -> (r:
        Result<(), Vec<Error>>)
        requires
            old(state).wf(),
            pending_checkable(old(state)@.modules, old(self).level as nat),
        ensures
            final(state).wf(),
            pending_checkable(final(state)@.modules, 0),
            (ModuleOutcome {
                state: final(state)@,
                checker: final(self)@,
                result: match r {
                    Ok(_) => Ok(()),
                    Err(e) => Err(errors_view(e@)),
                },
            }) == checked_module::<T>(
                old(state)@,
                old(self)@,
                module_id@,
                old(state).modules.entries.len() as nat,
            ),
    {
        let ghost fuel = state.modules.entries.len() as nat;
        self.check_module_within(module_id, state, Ghost(fuel))
    }

    /// Checks that a module has one function called `main`.
    pub fn check_single_main<T: Field>(module: &TypedModule<T>) -> (r: Result<(), ErrorInner>)
        ensures
            crate::semantics::messages::result_view(r) == single_main(module@),
    {
        let mut count: usize = 0;
        let mut i: usize = 0;
        let ghost functions = module@.functions;
        while i < module.functions.entries.len()
            invariant
                i <= module.functions.entries.len(),
                functions == module@.functions,
                count == main_count(functions, i as nat),
                count <= i,
            decreases module.functions.entries.len() - i,
        {
            assert(functions[i as int].0 == module.functions.entries[i as int].0@);
            if str_eq(module.functions.entries[i].0.id.as_str(), "main") {
                count += 1;
            }
            i += 1;
        }
        if count == 1 {
            Ok(())
        } else if count == 0 {
            Err(ErrorInner { pos: None, message: String::from_str("No main function found") })
        } else {
            let mut message = String::from_str("Only one main function allowed, found ");
            message.append(usize_to_dec(count).as_str());
            Err(ErrorInner { pos: None, message })
        }
    }

    /// Checks a program: the main module and the modules it imports from;
    /// the main module must have one function called `main`.
    pub fn check_program<T: Field>(&mut self, program: Program) -> (r: Result<
        TypedProgram<T>,
        Vec<Error>,
    >)
        requires
            program.modules.wf(),
            pending_checkable(pending_view(program.modules.entries@), old(self).level as nat),
        ensures
            (
                final(self)@,
                match r {
                    Ok(p) => Ok::<_, Seq<ErrorView>>(p@),
                    Err(e) => Err(errors_view(e@)),
                },
            ) == checked_program::<T>(
                pending_view(program.modules.entries@),
                program.main@,
                old(self)@,
            ),
    {
        let mut state: State<T> = State::new(program.modules);
        proof {
            assert(state@.typed_modules =~= Seq::empty());
            assert forall|m: Seq<char>| !state.types.contains(m) by {
                lemma_position_of(state.types.entries@, m);
            }
            assert(state.types@ =~= Map::empty());
        }
        match self.check_module(&program.main, &mut state) {
            Ok(()) => {},
            Err(e) => {
                return Err(e);
            },
        }
        let ghost typed = state.typed_modules.entries@;
        proof {
            lemma_named_positions_agree(typed, modules_view(typed), program.main@);
            lemma_position_of(typed, program.main@);
        }
        let checked = match state.typed_modules.get(program.main.as_str()) {
            Some(module) => Checker::check_single_main(module),
            None => {
                let empty: TypedModule<T> = TypedModule { functions: TypedFunctionSymbols::new() };
                assert(empty@.functions =~= Seq::empty());
                Checker::check_single_main(&empty)
            },
        };
        match checked {
            Ok(()) => {},
            Err(inner) => {
                let e = inner.in_file(&program.main);
                let mut errors: Vec<Error> = Vec::new();
                errors.push(e);
                assert(errors_view(errors@) =~= seq![e@]);
                return Err(errors);
            },
        }
        Ok(TypedProgram { main: program.main, modules: state.typed_modules })
    }

    /// Checks a program.
    pub fn check<T: Field>(prog: Program) -> (r: Result<TypedProgram<T>, Vec<Error>>)
        requires
            prog.modules.wf(),
            pending_checkable(pending_view(prog.modules.entries@), 0),
        ensures
            match r {
                Ok(p) => Ok::<_, Seq<ErrorView>>(p@),
                Err(e) => Err(errors_view(e@)),
            } == checked_program::<T>(
                pending_view(prog.modules.entries@),
                prog.main@,
                new_checker(),
            ).1,
    {
        Checker::new().check_program(prog)
    }
}

} // verus!
