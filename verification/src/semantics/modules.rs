//! Checking the declarations of a module, modules, and programs.

use vstd::prelude::*;
use crate::collections::named_position;
use crate::absy::{FunctionNode, Module, StructDefinitionNode, Symbol, SymbolDeclarationNode};
use crate::embed::FlatEmbed;
use crate::field::Field;
use crate::parser::Position;
use crate::semantics::declared::resolved_struct;
use crate::semantics::functions::checked_function;
use crate::semantics::messages::error_at;
use crate::semantics::scope::CheckerView;
use crate::semantics::state::{StateView, with_declared_type, with_module, with_named, with_symbol};
use crate::semantics::statements::{block_loops, block_well_formed};
use crate::semantics::symbols::{UnifierView, with_function, with_type};
use crate::semantics::{ErrorInnerView, ErrorView, declared_type, in_file};
use crate::typed_absy::program::{
    TypedFunctionSymbolView, TypedModuleView, TypedProgramView,
};
use crate::typed_absy::types::{
    FunctionKeyView, SignatureView, StructLocationView, StructTypeView, TypeView,
};

verus! {

/// What is known while the declarations of a module are checked.
pub struct Progress {
    /// What is known of the program.
    pub state: StateView,
    /// The checker of the module.
    pub checker: CheckerView,
    /// The function symbols of the module so far.
    pub functions: Seq<(FunctionKeyView, TypedFunctionSymbolView)>,
    /// The names the module has declared so far.
    pub unifier: UnifierView,
    /// What was found wrong so far.
    pub errors: Seq<ErrorView>,
}

/// What checking a module leaves behind.
pub struct ModuleOutcome {
    pub state: StateView,
    pub checker: CheckerView,
    pub result: Result<(), Seq<ErrorView>>,
}

/// The error of a name that stands for something else already, unless the
/// name was accepted.
pub open spec fn conflict_errors(
    accepted: bool,
    pos: (Position, Position),
    id: Seq<char>,
    module: Seq<char>,
) -> Seq<ErrorView> {
    if accepted {
        Seq::empty()
    } else {
        seq![error_at(pos, id + " conflicts with another symbol"@).in_file(module)]
    }
}

/// What declaring a function symbol under `id` leaves behind: the name is
/// unified, the function can be called, and the module has the symbol.
pub open spec fn declared_function(
    p: Progress,
    pos: (Position, Position),
    id: Seq<char>,
    module: Seq<char>,
    signature: SignatureView,
    symbol: TypedFunctionSymbolView,
) -> Progress {
    let unified = with_function(p.unifier, id, signature);
    let key = FunctionKeyView { id, signature };
    Progress {
        unifier: unified.0,
        errors: p.errors + conflict_errors(unified.1, pos, id, module),
        checker: p.checker.with_function(key),
        functions: with_symbol(p.functions, key, symbol),
        state: p.state,
    }
}

/// What declaring a struct type under `id` leaves behind: the name is
/// unified, and the module knows the type.
pub open spec fn declared_struct(
    p: Progress,
    pos: (Position, Position),
    id: Seq<char>,
    module: Seq<char>,
    ty: TypeView,
) -> Progress {
    let unified = with_type(p.unifier, id);
    Progress {
        unifier: unified.0,
        errors: p.errors + conflict_errors(unified.1, pos, id, module),
        state: StateView { types: with_declared_type(p.state.types, module, id, ty), ..p.state },
        ..p
    }
}

/// What the declaration of a struct type leaves behind.
pub open spec fn checked_here_type(
    p: Progress,
    pos: (Position, Position),
    id: Seq<char>,
    t: &StructDefinitionNode,
    module: Seq<char>,
) -> Progress {
    match resolved_struct(id, t, module, p.state.types) {
        Ok(ty) => declared_struct(p, pos, id, module, ty),
        Err(e) => Progress { errors: p.errors + in_file(e, module), ..p },
    }
}

/// What the declaration of a function leaves behind.
pub open spec fn checked_here_function<T: Field>(
    p: Progress,
    pos: (Position, Position),
    id: Seq<char>,
    f: &FunctionNode,
    module: Seq<char>,
) -> Progress {
    let outcome = checked_function::<T>(p.checker, f, module, p.state.types);
    match outcome.1 {
        Ok(funct) => declared_function(
            Progress { checker: outcome.0, ..p },
            pos,
            id,
            module,
            funct.signature,
            TypedFunctionSymbolView::Here(funct),
        ),
        Err(e) => Progress { checker: outcome.0, errors: p.errors + in_file(e, module), ..p },
    }
}

/// The keys called `name` among the first `n` symbols of a module, in
/// order.
pub open spec fn keys_named(
    functions: Seq<(FunctionKeyView, TypedFunctionSymbolView)>,
    name: Seq<char>,
    n: nat,
) -> Seq<FunctionKeyView>
    decreases n,
{
    if n == 0 || n > functions.len() {
        Seq::empty()
    } else if functions[n - 1].0.id == name {
        keys_named(functions, name, (n - 1) as nat).push(functions[n - 1].0)
    } else {
        keys_named(functions, name, (n - 1) as nat)
    }
}

/// The keys of the functions called `name` that a typed module has.
pub open spec fn function_candidates(
    typed: Seq<(Seq<char>, TypedModuleView)>,
    module: Seq<char>,
    name: Seq<char>,
) -> Seq<FunctionKeyView> {
    let at = named_position(typed, module);
    if at < typed.len() {
        keys_named(typed[at].1.functions, name, typed[at].1.functions.len())
    } else {
        Seq::empty()
    }
}

/// A struct type as the module `module` knows it under `name`.
pub open spec fn renamed(t: TypeView, module: Seq<char>, name: Seq<char>) -> TypeView {
    match t {
        TypeView::Struct(st) => TypeView::Struct(
            StructTypeView { location: Some(StructLocationView { module, name }), ..st },
        ),
        other => other,
    }
}

/// What importing the first `n` of the functions found under a name leaves
/// behind: each is declared under `id` as a function of the other module.
pub open spec fn imported_functions(
    p: Progress,
    pos: (Position, Position),
    id: Seq<char>,
    module: Seq<char>,
    from: Seq<char>,
    candidates: Seq<FunctionKeyView>,
    n: nat,
) -> Progress
    decreases n,
{
    if n == 0 || n > candidates.len() {
        p
    } else {
        declared_function(
            imported_functions(p, pos, id, module, from, candidates, (n - 1) as nat),
            pos,
            id,
            module,
            candidates[n - 1].signature,
            TypedFunctionSymbolView::There(candidates[n - 1], from),
        )
    }
}

/// The message for an import of a name under which the other module has
/// nothing.
pub open spec fn symbol_not_found(name: Seq<char>, module: Seq<char>) -> Seq<char> {
    "Could not find symbol "@ + name + " in module "@ + module
}

/// What importing `name` from the module `from` leaves behind, once that
/// module is checked. The functions called `name` are imported, all of
/// them; if there is none, the type called `name`, which is then known
/// under `id` here; if there is none either, the import is wrong.
pub open spec fn imported(
    p: Progress,
    pos: (Position, Position),
    id: Seq<char>,
    module: Seq<char>,
    from: Seq<char>,
    name: Seq<char>,
) -> Progress {
    let candidates = function_candidates(p.state.typed_modules, from, name);
    let types = with_module(p.state.types, from);
    let known = Progress { state: StateView { types, ..p.state }, ..p };
    if candidates.len() == 0 {
        match declared_type(types, from, name) {
            Some(t) => declared_struct(known, pos, id, module, renamed(t, module, id)),
            None => Progress {
                errors: known.errors + seq![
                    error_at(pos, symbol_not_found(name, from)).in_file(module),
                ],
                ..known
            },
        }
    } else {
        imported_functions(known, pos, id, module, from, candidates, candidates.len())
    }
}

/// What the declaration of a built-in gadget leaves behind.
pub open spec fn checked_flat(
    p: Progress,
    pos: (Position, Position),
    id: Seq<char>,
    e: &FlatEmbed,
    module: Seq<char>,
) -> Progress {
    declared_function(p, pos, id, module, e@.signature, TypedFunctionSymbolView::Flat(e@))
}

/// A checker that knows nothing.
pub open spec fn new_checker() -> CheckerView {
    CheckerView { scope: Seq::empty(), functions: Seq::empty(), level: 0 }
}

/// What a declaration leaves behind. `fuel` bounds how many modules can
/// still be entered: it is at least the number of pending modules.
pub open spec fn checked_symbol<T: Field>(
    p: Progress,
    d: &SymbolDeclarationNode,
    module: Seq<char>,
    fuel: nat,
) -> Progress
    decreases fuel, 1nat, 0nat,
{
    let pos = (d.start, d.end);
    let id = d.value.id@;
    match d.value.symbol {
        Symbol::HereType(t) => checked_here_type(p, pos, id, &t, module),
        Symbol::HereFunction(f) => checked_here_function::<T>(p, pos, id, &f, module),
        Symbol::There(import) => {
            let sub = checked_module::<T>(p.state, new_checker(), import.value.module_id@, fuel);
            match sub.result {
                Err(e) => Progress { state: sub.state, errors: p.errors + e, ..p },
                Ok(_) => imported(
                    Progress { state: sub.state, ..p },
                    (import.start, import.end),
                    id,
                    module,
                    import.value.module_id@,
                    import.value.symbol_id@,
                ),
            }
        },
        Symbol::Flat(e) => checked_flat(p, pos, id, &e, module),
    }
}

/// What the first `n` declarations of a module leave behind.
pub open spec fn checked_symbols<T: Field>(
    p: Progress,
    list: &Vec<SymbolDeclarationNode>,
    n: nat,
    module: Seq<char>,
    fuel: nat,
) -> Progress
    decreases fuel, 2nat, n,
{
    if n == 0 || n > list.len() {
        p
    } else {
        checked_symbol::<T>(
            checked_symbols::<T>(p, list, (n - 1) as nat, module, fuel),
            &list[n - 1],
            module,
            fuel,
        )
    }
}

/// What checking the module `module` leaves behind. A module that is not
/// pending is left alone. A pending module leaves the pending modules, gets
/// an entry in the type map, and has its declarations checked in order; if
/// nothing is wrong with them, it joins the typed modules.
pub open spec fn checked_module<T: Field>(
    st: StateView,
    c: CheckerView,
    module: Seq<char>,
    fuel: nat,
) -> ModuleOutcome
    decreases fuel, 0nat, 0nat,
{
    let at = named_position(st.modules, module);
    if 0 <= at < st.modules.len() && fuel > 0 {
        let entered = StateView {
            modules: st.modules.remove(at),
            types: with_module(st.types, module),
            ..st
        };
        let done = checked_symbols::<T>(
            Progress {
                state: entered,
                checker: c,
                functions: Seq::empty(),
                unifier: Seq::empty(),
                errors: Seq::empty(),
            },
            &st.modules[at].1.symbols,
            st.modules[at].1.symbols.len() as nat,
            module,
            (fuel - 1) as nat,
        );
        if done.errors.len() > 0 {
            ModuleOutcome { state: done.state, checker: done.checker, result: Err(done.errors) }
        } else {
            ModuleOutcome {
                state: StateView {
                    typed_modules: with_named(
                        done.state.typed_modules,
                        module,
                        TypedModuleView { functions: done.functions },
                    ),
                    ..done.state
                },
                checker: done.checker,
                result: Ok(()),
            }
        }
    } else {
        ModuleOutcome { state: st, checker: c, result: Ok(()) }
    }
}

/// How many functions of a module are called `main`.
pub open spec fn main_count(
    functions: Seq<(FunctionKeyView, TypedFunctionSymbolView)>,
    n: nat,
) -> nat
    decreases n,
{
    if n == 0 || n > functions.len() {
        0
    } else {
        main_count(functions, (n - 1) as nat) + if functions[n - 1].0.id == "main"@ {
            1nat
        } else {
            0nat
        }
    }
}

/// What is wrong with the main module: it must have one function called
/// `main`.
pub open spec fn single_main(module: TypedModuleView) -> Result<(), ErrorInnerView> {
    let count = main_count(module.functions, module.functions.len());
    if count == 1 {
        Ok(())
    } else if count == 0 {
        Err(ErrorInnerView { pos: None, message: "No main function found"@ })
    } else {
        Err(
            ErrorInnerView {
                pos: None,
                message: "Only one main function allowed, found "@ + crate::text::dec_string(
                    count,
                ),
            },
        )
    }
}

/// What a program is as a typed program, or what is wrong with it: what is
/// wrong with the main module and the modules it imports from, or with the
/// number of functions called `main`.
pub open spec fn checked_program<T: Field>(
    modules: Seq<(Seq<char>, Module)>,
    main: Seq<char>,
    c: CheckerView,
) -> (CheckerView, Result<TypedProgramView, Seq<ErrorView>>) {
    let outcome = checked_module::<T>(
        StateView { modules, typed_modules: Seq::empty(), types: Map::empty() },
        c,
        main,
        modules.len(),
    );
    match outcome.result {
        Err(e) => (outcome.checker, Err(e)),
        Ok(_) => {
            let at = named_position(outcome.state.typed_modules, main);
            let found = if at < outcome.state.typed_modules.len() {
                outcome.state.typed_modules[at].1
            } else {
                TypedModuleView { functions: Seq::empty() }
            };
            match single_main(found) {
                Err(e) => (outcome.checker, Err(seq![e.in_file(main)])),
                Ok(_) => (
                    outcome.checker,
                    Ok(TypedProgramView { modules: outcome.state.typed_modules, main }),
                ),
            }
        },
    }
}

/// How many levels the declaration of a function can leave the checker
/// deeper: one for the function and one for each of its loops.
pub open spec fn declaration_weight(d: &SymbolDeclarationNode) -> nat {
    match d.value.symbol {
        Symbol::HereFunction(f) => 1 + block_loops(
            &f.value.statements,
            f.value.statements.len() as nat,
        ),
        _ => 0,
    }
}

/// How many levels the first `n` declarations of a module can leave the
/// checker deeper.
pub open spec fn declarations_weight(list: &Vec<SymbolDeclarationNode>, n: nat) -> nat
    decreases n,
{
    if n == 0 || n > list.len() {
        0
    } else {
        declarations_weight(list, (n - 1) as nat) + declaration_weight(&list[n - 1])
    }
}

/// Whether the declaration is as the parser makes declarations: a function
/// has as many parameters as its signature has inputs, and its statements
/// are as the parser makes statements.
pub open spec fn declaration_formed(d: &SymbolDeclarationNode) -> bool {
    match d.value.symbol {
        Symbol::HereFunction(f) => f.value.arguments.len() == f.value.signature.inputs.len()
            && block_well_formed(&f.value.statements, f.value.statements.len() as nat),
        _ => true,
    }
}

/// Whether the module can be checked by a checker at the given level: its
/// imports have been turned into symbols, its declarations are as the
/// parser makes declarations, and it has no more functions and loops than
/// levels can be counted.
pub open spec fn module_checkable(m: &Module, level: nat) -> bool {
    &&& m.imports.len() == 0
    &&& forall|i: int| 0 <= i < m.symbols.len() ==> declaration_formed(#[trigger] &m.symbols[i])
    &&& level + declarations_weight(&m.symbols, m.symbols.len() as nat) <= usize::MAX
}

/// Whether every pending module can be checked by a checker at the given
/// level.
pub open spec fn pending_checkable(modules: Seq<(Seq<char>, Module)>, level: nat) -> bool {
    forall|i: int| 0 <= i < modules.len() ==> module_checkable(&(#[trigger] modules[i]).1, level)
}

} // verus!
