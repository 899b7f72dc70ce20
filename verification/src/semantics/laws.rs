//! What holds of semantic analysis.

use vstd::prelude::*;
use crate::collections::named_position;
use crate::absy::{ExpressionNode, FunctionNode, Module};
use crate::field::Field;
use crate::parser::Position;
use crate::semantics::declared::resolved_signature;
use crate::semantics::functions::checked_function;
use crate::semantics::messages::error_at;
use crate::semantics::modules::{
    Progress, checked_program, conflict_errors, declared_function, function_candidates,
    imported, main_count, renamed, single_main, symbol_not_found,
};
use crate::semantics::scope::CheckerView;
use crate::semantics::state::{with_declared_type, with_module};
use crate::semantics::symbols::{
    SymbolTypeView, UnifierView, declared, has_signature, lemma_same_signature_twice,
    lemma_symbol_position, lemma_symbol_position_is, symbol_position, with_function, with_type,
};
use crate::semantics::typing::checked_expression;
use crate::semantics::{ErrorView, TypesView, declared_type};
use crate::typed_absy::identifier::IdentifierView;
use crate::typed_absy::program::{TypedFunctionSymbolView, TypedModuleView};
use crate::typed_absy::types::{
    SignatureView, StructLocationView, StructTypeView, TypeView, law_same_type_transitive,
    same_signature, same_type, same_types,
};

verus! {

/// The signature of a function that was checked without error is the
/// signature that the source declares.
pub proof fn law_declared_signature<T: Field>(
    c: CheckerView,
    f: &FunctionNode,
    module: Seq<char>,
    types: TypesView,
)
    ensures
        checked_function::<T>(c, f, module, types).1 matches Ok(typed) ==> resolved_signature(
            &f.value.signature,
            module,
            types,
        ) == Ok::<_, Seq<crate::semantics::ErrorInnerView>>(typed.signature),
{
}

proof fn lemma_same_types_transitive(a: Seq<TypeView>, b: Seq<TypeView>, c: Seq<TypeView>)
    requires
        same_types(a, b),
        same_types(b, c),
    ensures
        same_types(a, c),
{
    assert forall|i: int| 0 <= i < a.len() implies #[trigger] same_type(a[i], c[i]) by {
        assert(same_type(a[i], b[i]));
        assert(same_type(b[i], c[i]));
        law_same_type_transitive(a[i], b[i], c[i]);
    }
}

/// Once a function is declared under a name, a function of an equal
/// signature cannot be declared under that name.
pub proof fn law_duplicate_function(
    u: UnifierView,
    id: Seq<char>,
    first: SignatureView,
    second: SignatureView,
)
    requires
        same_signature(first, second),
    ensures
        !with_function(with_function(u, id, first).0, id, second).1,
{
    if with_function(u, id, first).1 {
        lemma_same_signature_twice(u, id, first, second);
    } else {
        lemma_symbol_position(u, id);
        let at = symbol_position(u, id);
        match u[at].1 {
            SymbolTypeView::Type => {},
            SymbolTypeView::Functions(known) => {
                let k = choose|k: int|
                    0 <= k < known.len() && same_signature(#[trigger] known[k], first);
                lemma_same_types_transitive(known[k].inputs, first.inputs, second.inputs);
                lemma_same_types_transitive(known[k].outputs, first.outputs, second.outputs);
                assert(same_signature(known[k], second));
            },
        }
    }
}

/// Two functions of one name and equal signatures in a module are a
/// conflict: declaring the second is an error, whatever became of the
/// first.
pub proof fn law_duplicate_declaration(
    p: Progress,
    pos: (Position, Position),
    id: Seq<char>,
    module: Seq<char>,
    first: SignatureView,
    first_symbol: TypedFunctionSymbolView,
    second_pos: (Position, Position),
    second: SignatureView,
    second_symbol: TypedFunctionSymbolView,
)
    requires
        same_signature(first, second),
    ensures
        ({
            let once = declared_function(p, pos, id, module, first, first_symbol);
            let twice = declared_function(once, second_pos, id, module, second, second_symbol);
            twice.errors == once.errors + conflict_errors(false, second_pos, id, module)
        }),
{
    law_duplicate_function(p.unifier, id, first, second);
}

/// A function can be declared under a name that stands for functions of
/// other signatures, or for nothing yet: that is no error.
pub proof fn law_overloading(
    p: Progress,
    pos: (Position, Position),
    id: Seq<char>,
    module: Seq<char>,
    signature: SignatureView,
    symbol: TypedFunctionSymbolView,
)
    requires
        !declared(p.unifier, id) || (p.unifier[symbol_position(p.unifier, id)].1 matches SymbolTypeView::Functions(
            known,
        ) && !has_signature(known, signature)),
    ensures
        declared_function(p, pos, id, module, signature, symbol).errors == p.errors,
{
    assert(p.errors + Seq::<ErrorView>::empty() =~= p.errors);
}

/// A second function under a name is accepted when its signature differs
/// from that of the first.
pub proof fn law_overloading_twice(
    id: Seq<char>,
    first: SignatureView,
    second: SignatureView,
)
    requires
        !same_signature(first, second),
    ensures
        with_function(Seq::empty(), id, first).1,
        with_function(with_function(Seq::empty(), id, first).0, id, second).1,
{
    let u: UnifierView = Seq::empty();
    let after = with_function(u, id, first).0;
    lemma_symbol_position_is(after, id, 0);
    let known = seq![first];
    assert(!has_signature(known, second)) by {
        if has_signature(known, second) {
            let k = choose|k: int| 0 <= k < known.len() && same_signature(
                #[trigger] known[k],
                second,
            );
            assert(known[k] == first);
        }
    }
}

/// The import of a name under which the other module has no function and
/// no type is an error.
pub proof fn law_import_not_found(
    p: Progress,
    pos: (Position, Position),
    id: Seq<char>,
    module: Seq<char>,
    from: Seq<char>,
    name: Seq<char>,
)
    requires
        function_candidates(p.state.typed_modules, from, name).len() == 0,
        declared_type(with_module(p.state.types, from), from, name) is None,
    ensures
        imported(p, pos, id, module, from, name).errors == p.errors + seq![
            error_at(pos, symbol_not_found(name, from)).in_file(module),
        ],
{
}

/// The import of a name under which the other module has a struct type and
/// no function makes the type known here, under the name it is imported
/// as: with its members and the place it was declared in, and as a type of
/// this module of that name. The other module knows it as before, no
/// function is added, and nothing is wrong unless the name stands for
/// something else already.
pub proof fn law_import_renames_type(
    p: Progress,
    pos: (Position, Position),
    id: Seq<char>,
    module: Seq<char>,
    from: Seq<char>,
    name: Seq<char>,
    t: StructTypeView,
)
    requires
        function_candidates(p.state.typed_modules, from, name).len() == 0,
        declared_type(with_module(p.state.types, from), from, name) == Some(TypeView::Struct(t)),
    ensures
        declared_type(imported(p, pos, id, module, from, name).state.types, module, id) == Some(
            TypeView::Struct(
                StructTypeView {
                    location: Some(StructLocationView { module, name: id }),
                    canonical_location: t.canonical_location,
                    members: t.members,
                },
            ),
        ),
        from != module || name != id ==> declared_type(
            imported(p, pos, id, module, from, name).state.types,
            from,
            name,
        ) == Some(TypeView::Struct(t)),
        imported(p, pos, id, module, from, name).functions == p.functions,
        with_type(p.unifier, id).1 ==> imported(p, pos, id, module, from, name).errors == p.errors,
{
    let types = with_module(p.state.types, from);
    let known = with_module(types, module);
    let ty = renamed(TypeView::Struct(t), module, id);
    let after = with_declared_type(types, module, id, ty);
    assert(after == known.insert(module, known[module].insert(id, ty)));
    assert(known.dom().contains(from));
    assert(known[from] == types[from]);
    if with_type(p.unifier, id).1 {
        assert(p.errors + Seq::<ErrorView>::empty() =~= p.errors);
    }
}

/// An identifier that is not in scope is undefined.
pub proof fn law_undefined_identifier<T: Field>(
    c: CheckerView,
    e: &ExpressionNode,
    module: Seq<char>,
    types: TypesView,
)
    requires
        e.value is Identifier,
        !c.in_scope(IdentifierView::source(e.value->Identifier_0@)),
    ensures
        checked_expression::<T>(c, e, module, types) == Err::<
            crate::typed_absy::expression::TypedExpressionView,
            _,
        >(
            error_at(
                (e.start, e.end),
                "Identifier \""@ + e.value->Identifier_0@ + "\" is undefined"@,
            ),
        ),
{
}

/// A module passes as the main module exactly when it has one function
/// called `main`.
pub proof fn law_single_main(module: TypedModuleView)
    ensures
        single_main(module) is Ok <==> main_count(module.functions, module.functions.len()) == 1,
{
}

/// The main module of a program that was checked without error has one
/// function called `main`.
pub proof fn law_checked_main<T: Field>(
    modules: Seq<(Seq<char>, Module)>,
    main: Seq<char>,
    c: CheckerView,
)
    ensures
        checked_program::<T>(modules, main, c).1 matches Ok(p) ==> {
            let at = named_position(p.modules, main);
            at < p.modules.len() && main_count(
                p.modules[at].1.functions,
                p.modules[at].1.functions.len(),
            ) == 1
        },
{
}

} // verus!
