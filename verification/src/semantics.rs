//! Semantic analysis: from the untyped program to the typed program, or to
//! the list of what is wrong with it.

pub mod declared;
pub mod expressions;
pub mod functions;
pub mod laws;
pub mod messages;
pub mod modules;
pub mod program;
pub mod query;
pub mod rules;
pub mod scope;
pub mod state;
pub mod stored;
pub mod statements;
pub mod symbols;
pub mod typing;

use vstd::prelude::*;
use crate::absy::{ModuleId, Modules};
use crate::collections::StringMap;
use crate::field::Field;
use crate::parser::Position;
use crate::typed_absy::program::TypedModules;
use crate::typed_absy::types::{Type, TypeView};

verus! {

/// Something wrong with the program, and where.
#[derive(Debug, PartialEq)]
pub struct ErrorInner {
    pub pos: Option<(Position, Position)>,
    pub message: String,
}

pub struct ErrorInnerView {
    pub pos: Option<(Position, Position)>,
    pub message: Seq<char>,
}

impl View for ErrorInner {
    type V = ErrorInnerView;

    open spec fn view(&self) -> ErrorInnerView {
        ErrorInnerView { pos: self.pos, message: self.message@ }
    }
}

/// Something wrong with the program, where, and in which module.
#[derive(Debug, PartialEq)]
pub struct Error {
    pub inner: ErrorInner,
    pub module_id: ModuleId,
}

pub struct ErrorView {
    pub inner: ErrorInnerView,
    pub module_id: Seq<char>,
}

impl View for Error {
    type V = ErrorView;

    open spec fn view(&self) -> ErrorView {
        ErrorView { inner: self.inner@, module_id: self.module_id@ }
    }
}

impl ErrorInnerView {
    /// The error, as found in the module `id`.
    pub open spec fn in_file(self, id: Seq<char>) -> ErrorView {
        ErrorView { inner: self, module_id: id }
    }

    /// How the error is written: where it starts, or `?`, then the message
    /// on a line of its own.
    pub open spec fn display(self) -> Seq<char> {
        (match self.pos {
            Some(p) => p.0.display(),
            None => "?"@,
        }) + "\n\t"@ + self.message
    }
}

impl ErrorInner {
    pub fn new(pos: Option<(Position, Position)>, message: String) -> (r: ErrorInner)
        ensures
            r@ == (ErrorInnerView { pos, message: message@ }),
    {
        ErrorInner { pos, message }
    }

    /// The error, as found in the module `id`.
    pub fn in_file(self, id: &ModuleId) -> (r: Error)
        ensures
            r@ == self@.in_file(id@),
    {
        Error { inner: self, module_id: id.clone() }
    }

    pub fn to_string(&self) -> (r: String)
        ensures
            r@ == self@.display(),
    {
        let mut s = match &self.pos {
            Some(p) => p.0.to_string(),
            None => String::from_str("?"),
        };
        s.append("\n\t");
        s.append(self.message.as_str());
        s
    }
}

/// The views of a list of errors.
pub open spec fn inner_errors_view(errors: Seq<ErrorInner>) -> Seq<ErrorInnerView> {
    Seq::new(errors.len(), |i: int| errors[i]@)
}

/// The views of a list of errors.
pub open spec fn errors_view(errors: Seq<Error>) -> Seq<ErrorView> {
    Seq::new(errors.len(), |i: int| errors[i]@)
}

/// The errors of a list, each as found in the module `id`.
pub open spec fn in_file(errors: Seq<ErrorInnerView>, id: Seq<char>) -> Seq<ErrorView> {
    Seq::new(errors.len(), |i: int| errors[i].in_file(id))
}

/// The struct types that each module knows, under the names it knows them
/// by.
pub type TypeMap = StringMap<StringMap<Type>>;

/// The struct types that each module knows, as a map from the module and
/// the name to the type.
pub type TypesView = Map<Seq<char>, Map<Seq<char>, TypeView>>;

impl View for StringMap<Type> {
    type V = Map<Seq<char>, TypeView>;

    open spec fn view(&self) -> Map<Seq<char>, TypeView> {
        Map::new(|name: Seq<char>| self.contains(name), |name: Seq<char>| self.value(name)@)
    }
}

impl View for StringMap<StringMap<Type>> {
    type V = TypesView;

    open spec fn view(&self) -> TypesView {
        Map::new(|module: Seq<char>| self.contains(module), |module: Seq<char>| self.value(module)@)
    }
}

/// What the type map says of a name in a module.
pub open spec fn declared_type(types: TypesView, module: Seq<char>, name: Seq<char>) -> Option<
    TypeView,
> {
    if types.dom().contains(module) && types[module].dom().contains(name) {
        Some(types[module][name])
    } else {
        None
    }
}

/// The type map holds struct types only.
pub open spec fn structs_only(types: TypesView) -> bool {
    forall|module: Seq<char>, name: Seq<char>|
        (#[trigger] declared_type(types, module, name)) matches Some(t) ==> t is Struct
}

/// What is known of the program while it is analysed.
#[derive(Debug)]
pub struct State<T> {
    /// The modules that are still to be analysed. A module leaves when its
    /// analysis starts.
    pub modules: Modules,
    /// The modules that were analysed without error.
    pub typed_modules: TypedModules<T>,
    /// The struct types declared so far.
    pub types: TypeMap,
}

impl<T: Field> State<T> {
    pub fn new(modules: Modules) -> (r: Self)
        ensures
            r.modules == modules,
            r.typed_modules.entries@.len() == 0,
            r.types.entries@.len() == 0,
    {
        State { modules, typed_modules: StringMap::new(), types: StringMap::new() }
    }
}

} // verus!
