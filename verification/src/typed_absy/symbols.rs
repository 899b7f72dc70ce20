//! What a function symbol stands for: the signature of the function it
//! names, in this module or in the module it is imported from.

use vstd::prelude::*;
use crate::collections::{lemma_named_positions_agree, named_position};
use crate::field::Field;
use crate::semantics::state::{key_position, lemma_key_positions_agree};
use crate::typed_absy::program::{
    TypedFunctionSymbol, TypedFunctionSymbolView, TypedModuleView, TypedModules, modules_view,
};
use crate::typed_absy::types::{Signature, SignatureView};

verus! {

/// The symbol that a function symbol of another module names, if that
/// module is there and has a function under the key.
pub open spec fn target(
    s: TypedFunctionSymbolView,
    modules: Seq<(Seq<char>, TypedModuleView)>,
) -> Option<TypedFunctionSymbolView> {
    match s {
        TypedFunctionSymbolView::There(key, module) => {
            let at = named_position(modules, module);
            if at < modules.len() {
                let functions = modules[at].1.functions;
                let k = key_position(functions, key);
                if k < functions.len() {
                    Some(functions[k].1)
                } else {
                    None
                }
            } else {
                None
            }
        },
        _ => None,
    }
}

/// Whether the symbol leads to a function or a gadget through at most `n`
/// imports.
pub open spec fn resolves_within(
    s: TypedFunctionSymbolView,
    modules: Seq<(Seq<char>, TypedModuleView)>,
    n: nat,
) -> bool
    decreases n,
{
    match s {
        TypedFunctionSymbolView::There(_, _) => n > 0 && target(s, modules) is Some
            && resolves_within(target(s, modules)->Some_0, modules, (n - 1) as nat),
        _ => true,
    }
}

/// Whether the symbol leads to a function or a gadget through imports.
pub open spec fn resolves(
    s: TypedFunctionSymbolView,
    modules: Seq<(Seq<char>, TypedModuleView)>,
) -> bool {
    exists|n: nat| resolves_within(s, modules, n)
}

/// The signature of the function or gadget that the symbol leads to
/// through at most `n` imports.
pub open spec fn signature_within(
    s: TypedFunctionSymbolView,
    modules: Seq<(Seq<char>, TypedModuleView)>,
    n: nat,
) -> SignatureView
    decreases n,
{
    match s {
        TypedFunctionSymbolView::Here(f) => f.signature,
        TypedFunctionSymbolView::Flat(e) => e.signature,
        TypedFunctionSymbolView::There(_, _) => if n > 0 && target(s, modules) is Some {
            signature_within(target(s, modules)->Some_0, modules, (n - 1) as nat)
        } else {
            arbitrary()
        },
    }
}

/// The signature of the function or gadget that the symbol leads to.
pub open spec fn signature_of(
    s: TypedFunctionSymbolView,
    modules: Seq<(Seq<char>, TypedModuleView)>,
) -> SignatureView {
    signature_within(s, modules, choose|n: nat| resolves_within(s, modules, n))
}

/// Where the symbol leads does not depend on how many imports are allowed,
/// as long as they are enough.
pub proof fn lemma_signature_within(
    s: TypedFunctionSymbolView,
    modules: Seq<(Seq<char>, TypedModuleView)>,
    n: nat,
    m: nat,
)
    requires
        resolves_within(s, modules, n),
        resolves_within(s, modules, m),
    ensures
        signature_within(s, modules, n) == signature_within(s, modules, m),
    decreases n,
{
    if s is There {
        lemma_signature_within(target(s, modules)->Some_0, modules, (n - 1) as nat, (m - 1) as nat);
    }
}

/// The signature of a function of the module is its own, that of a gadget
/// is the gadget's, and that of an imported function is the signature of
/// the symbol it is imported from.
pub proof fn law_signature(s: TypedFunctionSymbolView, modules: Seq<(Seq<char>, TypedModuleView)>)
    requires
        resolves(s, modules),
    ensures
        match s {
            TypedFunctionSymbolView::Here(f) => signature_of(s, modules) == f.signature,
            TypedFunctionSymbolView::Flat(e) => signature_of(s, modules) == e.signature,
            TypedFunctionSymbolView::There(_, _) => target(s, modules) is Some && resolves(
                target(s, modules)->Some_0,
                modules,
            ) && signature_of(s, modules) == signature_of(target(s, modules)->Some_0, modules),
        },
{
    let n = choose|n: nat| resolves_within(s, modules, n);
    if s is There {
        let t = target(s, modules)->Some_0;
        assert(resolves_within(t, modules, (n - 1) as nat));
        let k = choose|k: nat| resolves_within(t, modules, k);
        lemma_signature_within(t, modules, (n - 1) as nat, k);
    }
}

impl<T: Field> TypedFunctionSymbol<T> {
    /// The signature that the symbol leads to through at most `n` imports.
    fn signature_through(&self, modules: &TypedModules<T>, Ghost(n): Ghost<nat>) -> (r: Signature)
        requires
            resolves_within(self@, modules_view(modules.entries@), n),
        ensures
            r@ == signature_within(self@, modules_view(modules.entries@), n),
        decreases n,
    {
        let ghost views = modules_view(modules.entries@);
        match self {
            TypedFunctionSymbol::Here(f) => f.signature.clone(),
            TypedFunctionSymbol::Flat(flat_fun) => flat_fun.signature(),
            TypedFunctionSymbol::There(key, module_id) => {
                proof {
                    lemma_named_positions_agree(modules.entries@, views, module_id@);
                    crate::collections::lemma_position_of(modules.entries@, module_id@);
                }
                match modules.get(module_id.as_str()) {
                    None => {
                        proof {
                            assert(false);
                        }
                        Signature::new()
                    },
                    Some(module) => {
                        let ghost at = named_position(views, module_id@);
                        assert(views[at].1 == module@);
                        proof {
                            lemma_key_positions_agree(module.functions.entries@, key@);
                            crate::typed_absy::program::lemma_symbol_position(
                                module.functions.entries@,
                                key@,
                            );
                        }
                        match module.functions.get(key) {
                            None => {
                                proof {
                                    assert(false);
                                }
                                Signature::new()
                            },
                            Some(symbol) => {
                                let ghost k = key_position(module@.functions, key@);
                                assert(module@.functions[k].1 == symbol@);
                                symbol.signature_through(modules, Ghost((n - 1) as nat))
                            },
                        }
                    },
                }
            },
        }
    }

    /// The signature of the function that the symbol stands for. The
    /// symbol must lead to a function or a gadget.
    pub fn signature(&self, modules: &TypedModules<T>) -> (r: Signature)
        requires
            resolves(self@, modules_view(modules.entries@)),
        ensures
            r@ == signature_of(self@, modules_view(modules.entries@)),
    {
        let ghost n = choose|n: nat| resolves_within(self@, modules_view(modules.entries@), n);
        self.signature_through(modules, Ghost(n))
    }
}

} // verus!
