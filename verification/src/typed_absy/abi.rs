//! The interface of a program: what its main function takes and what it
//! returns.

use vstd::prelude::*;
use crate::collections::{lemma_named_positions_agree, named_position};
use crate::field::Field;
use crate::text::str_eq;
use crate::typed_absy::parameter::ParameterView;
use crate::typed_absy::program::{
    TypedFunction, TypedFunctionSymbol, TypedFunctionSymbolView, TypedFunctionView, TypedProgram,
    TypedProgramView,
};
use crate::typed_absy::types::{
    FunctionKeyView, Signature, SignatureView, Type, TypeView, types_copy, types_view,
};

verus! {

/// An input of the main function: its name, whether it is public, and its
/// type.
#[derive(Debug, PartialEq, Eq)]
pub struct AbiInput {
    pub name: String,
    pub public: bool,
    pub ty: Type,
}

pub struct AbiInputView {
    pub name: Seq<char>,
    pub public: bool,
    pub ty: TypeView,
}

impl View for AbiInput {
    type V = AbiInputView;

    open spec fn view(&self) -> AbiInputView {
        AbiInputView { name: self.name@, public: self.public, ty: self.ty@ }
    }
}

pub type AbiOutput = Type;

/// The interface of a program.
#[derive(Debug, PartialEq, Eq)]
pub struct Abi {
    pub inputs: Vec<AbiInput>,
    pub outputs: Vec<AbiOutput>,
}

pub struct AbiView {
    pub inputs: Seq<AbiInputView>,
    pub outputs: Seq<TypeView>,
}

/// The views of a list of inputs.
pub open spec fn inputs_view(inputs: Seq<AbiInput>) -> Seq<AbiInputView> {
    Seq::new(inputs.len(), |i: int| inputs[i]@)
}

impl View for Abi {
    type V = AbiView;

    open spec fn view(&self) -> AbiView {
        AbiView { inputs: inputs_view(self.inputs@), outputs: types_view(self.outputs@) }
    }
}

impl AbiView {
    /// The signature of the main function: the types of the inputs, and
    /// the outputs.
    pub open spec fn signature(self) -> SignatureView {
        SignatureView {
            inputs: Seq::new(self.inputs.len(), |i: int| self.inputs[i].ty),
            outputs: self.outputs,
        }
    }
}

impl Abi {
    /// The signature of the main function.
    pub fn signature(&self) -> (r: Signature)
        ensures
            r@ == self@.signature(),
    {
        let mut inputs: Vec<Type> = Vec::new();
        let mut i: usize = 0;
        while i < self.inputs.len()
            invariant
                i <= self.inputs.len(),
                inputs.len() == i,
                forall|j: int| 0 <= j < i ==> inputs[j]@ == self.inputs[j].ty@,
            decreases self.inputs.len() - i,
        {
            inputs.push(self.inputs[i].ty.clone());
            i += 1;
        }
        let r = Signature { inputs, outputs: types_copy(&self.outputs) };
        assert(r@.inputs =~= self@.signature().inputs);
        r
    }
}

/// The position of the first function called `main`, or the number of
/// functions if there is none.
pub open spec fn main_position(
    functions: Seq<(FunctionKeyView, TypedFunctionSymbolView)>,
) -> int
    decreases functions.len(),
{
    if functions.len() == 0 {
        0
    } else if functions[0].0.id == "main"@ {
        0
    } else {
        1 + main_position(functions.drop_first())
    }
}

pub proof fn lemma_main_position(functions: Seq<(FunctionKeyView, TypedFunctionSymbolView)>)
    ensures
        0 <= main_position(functions) <= functions.len(),
        main_position(functions) < functions.len() ==> functions[main_position(functions)].0.id
            == "main"@,
        forall|j: int| 0 <= j < main_position(functions) ==> (#[trigger] functions[j]).0.id
            != "main"@,
    decreases functions.len(),
{
    if functions.len() != 0 && functions[0].0.id != "main"@ {
        let rest = functions.drop_first();
        lemma_main_position(rest);
        assert forall|j: int| 0 <= j < main_position(functions) implies (
        #[trigger] functions[j]).0.id != "main"@ by {
            if j > 0 {
                assert(functions[j] == rest[j - 1]);
            }
        }
    }
}

impl TypedProgramView {
    /// The main function: the first function called `main` of the main
    /// module, if the main module is there and that function is a function
    /// of its own.
    pub open spec fn main_function(self) -> Option<TypedFunctionView> {
        let at = named_position(self.modules, self.main);
        if at < self.modules.len() {
            let functions = self.modules[at].1.functions;
            let main = main_position(functions);
            if main < functions.len() {
                match functions[main].1 {
                    TypedFunctionSymbolView::Here(f) => Some(f),
                    _ => None,
                }
            } else {
                None
            }
        } else {
            None
        }
    }
}

/// The input that a parameter is: public unless private, under the name of
/// the parameter.
pub open spec fn input_of(p: ParameterView) -> AbiInputView {
    AbiInputView { name: p.id.id.display(), public: !p.private, ty: p.id.ty }
}

/// The interface of a main function.
pub open spec fn abi_of(main: TypedFunctionView) -> AbiView {
    AbiView {
        inputs: Seq::new(main.arguments.len(), |i: int| input_of(main.arguments[i])),
        outputs: main.signature.outputs,
    }
}

impl<T: Field> TypedProgram<T> {
    /// The main function of the program.
    fn find_main(&self) -> (r: Option<&TypedFunction<T>>)
        ensures
            match r {
                Some(f) => self@.main_function() == Some(f@),
                None => self@.main_function() is None,
            },
    {
        let ghost modules = self@.modules;
        proof {
            lemma_named_positions_agree(self.modules.entries@, modules, self.main@);
        }
        match self.modules.find(self.main.as_str()) {
            None => None,
            Some(at) => {
                let module = &self.modules.entries[at].1;
                let ghost functions = module@.functions;
                assert(modules[at as int].1.functions == functions);
                let mut i: usize = 0;
                while i < module.functions.entries.len()
                    invariant
                        i <= module.functions.entries.len(),
                        functions == module@.functions,
                        modules == self@.modules,
                        at == named_position(modules, self.main@),
                        at < modules.len(),
                        modules[at as int].1.functions == functions,
                        forall|j: int| 0 <= j < i ==> (#[trigger] functions[j]).0.id != "main"@,
                    decreases module.functions.entries.len() - i,
                {
                    assert(functions[i as int].0 == module.functions.entries[i as int].0@);
                    assert(functions[i as int].1 == module.functions.entries[i as int].1@);
                    if str_eq(module.functions.entries[i].0.id.as_str(), "main") {
                        proof {
                            lemma_main_position(functions);
                            let p = main_position(functions);
                            if p < i {
                                assert(functions[p].0.id == "main"@);
                            }
                            if p > i {
                                assert(functions[i as int].0.id != "main"@);
                            }
                            assert(p == i);
                        }
                        return match &module.functions.entries[i].1 {
                            TypedFunctionSymbol::Here(f) => Some(f),
                            _ => None,
                        };
                    }
                    i += 1;
                }
                proof {
                    lemma_main_position(functions);
                }
                None
            },
        }
    }

    /// The interface of the program: what its main function takes and what
    /// it returns.
    pub fn abi(&self) -> (r: Abi)
        requires
            self@.main_function() is Some,
        ensures
            r@ == abi_of(self@.main_function()->Some_0),
    {
        let main = match self.find_main() {
            Some(f) => f,
            None => {
                proof {
                    assert(false);
                }
                return Abi { inputs: Vec::new(), outputs: Vec::new() };
            },
        };
        let mut inputs: Vec<AbiInput> = Vec::new();
        let mut i: usize = 0;
        let ghost arguments = main@.arguments;
        while i < main.arguments.len()
            invariant
                i <= main.arguments.len(),
                arguments == main@.arguments,
                inputs.len() == i,
                forall|j: int| 0 <= j < i ==> inputs[j]@ == input_of(arguments[j]),
            decreases main.arguments.len() - i,
        {
            let p = &main.arguments[i];
            assert(arguments[i as int] == p@);
            inputs.push(
                AbiInput { public: !p.private, name: p.id.id.to_string(), ty: p.id._type.clone() },
            );
            i += 1;
        }
        let r = Abi { inputs, outputs: types_copy(&main.signature.outputs) };
        assert(r@.inputs =~= abi_of(main@).inputs);
        r
    }
}

} // verus!
