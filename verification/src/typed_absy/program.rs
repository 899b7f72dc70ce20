//! Assignees, statements, functions, modules and programs of the typed
//! program.

use vstd::prelude::*;
use crate::collections::StringMap;
use crate::embed::{FlatEmbed, FlatEmbedView};
use crate::field::Field;
use crate::typed_absy::display::{field_display, member_display, select_display};
use crate::typed_absy::display::{member_text, select_text};
use crate::typed_absy::expression::{
    BooleanExpression, BooleanExpressionView, FieldElementExpression, FieldElementExpressionView,
    TypedExpression, TypedExpressionView, expressions_model,
};
use crate::typed_absy::parameter::{Parameter, ParameterView};
use crate::typed_absy::typed::{MultiTyped, Typed};
use crate::typed_absy::types::{
    FunctionKey, FunctionKeyView, MemberId, Signature, SignatureView, Type, TypeView, same_key,
    types_view,
};
use crate::typed_absy::variable::{Variable, VariableView};

verus! {

/// What identifies a module.
pub type TypedModuleId = String;

/// Something that can be assigned to.
#[derive(Debug, PartialEq)]
pub enum TypedAssignee<T> {
    Identifier(Variable),
    Select(Box<TypedAssignee<T>>, Box<FieldElementExpression<T>>),
    Member(Box<TypedAssignee<T>>, MemberId),
}

pub enum TypedAssigneeView {
    Identifier(VariableView),
    Select(Box<TypedAssigneeView>, Box<FieldElementExpressionView>),
    Member(Box<TypedAssigneeView>, Seq<char>),
}

impl TypedAssigneeView {
    /// Whether the assignee selects elements from arrays only and members
    /// from structs that have them.
    pub open spec fn typed(self) -> bool
        decreases self,
    {
        match self {
            TypedAssigneeView::Identifier(_) => true,
            TypedAssigneeView::Select(a, _) => a.typed() && a.get_type() is Array,
            TypedAssigneeView::Member(s, m) => s.typed() && s.get_type() is Struct
                && s.get_type()->Struct_0.has_member(m),
        }
    }

    /// The type of what is assigned to.
    pub open spec fn get_type(self) -> TypeView
        decreases self,
    {
        match self {
            TypedAssigneeView::Identifier(v) => v.ty,
            TypedAssigneeView::Select(a, _) => match a.get_type() {
                TypeView::Array(ty, _) => *ty,
                _ => arbitrary(),
            },
            TypedAssigneeView::Member(s, m) => match s.get_type() {
                TypeView::Struct(st) => st.member_type(m),
                _ => arbitrary(),
            },
        }
    }

    /// How the assignee is written.
    pub open spec fn display(self) -> Seq<char>
        decreases self,
    {
        match self {
            TypedAssigneeView::Identifier(v) => v.id.display(),
            TypedAssigneeView::Select(a, i) => select_display(a.display(), field_display(*i)),
            TypedAssigneeView::Member(s, m) => member_display(s.display(), m),
        }
    }
}

impl<T: Field> TypedAssignee<T> {
    pub open spec fn model(&self) -> TypedAssigneeView
        decreases self,
    {
        match self {
            TypedAssignee::Identifier(v) => TypedAssigneeView::Identifier(v@),
            TypedAssignee::Select(a, i) => TypedAssigneeView::Select(
                Box::new(a.model()),
                Box::new(i@),
            ),
            TypedAssignee::Member(s, m) => TypedAssigneeView::Member(Box::new(s.model()), m@),
        }
    }

    pub fn from_variable(v: Variable) -> (r: Self)
        ensures
            r@ == TypedAssigneeView::Identifier(v@),
    {
        TypedAssignee::Identifier(v)
    }

    fn type_of(&self) -> (r: Type)
        requires
            self.model().typed(),
        ensures
            r@ == self.model().get_type(),
        decreases self,
    {
        match self {
            TypedAssignee::Identifier(v) => v.get_type(),
            TypedAssignee::Select(a, _) => {
                match a.type_of() {
                    Type::Array(t) => *t.ty,
                    _ => Type::FieldElement,
                }
            },
            TypedAssignee::Member(s, m) => {
                match s.type_of() {
                    Type::Struct(members) => match members.find_member(m.as_str()) {
                        Some(member) => (*member.ty).clone(),
                        None => Type::FieldElement,
                    },
                    _ => Type::FieldElement,
                }
            },
        }
    }

    /// The assignee as text.
    pub fn to_string(&self) -> (r: String)
        ensures
            r@ == self@.display(),
        decreases self,
    {
        match self {
            TypedAssignee::Identifier(v) => v.id.to_string(),
            TypedAssignee::Select(a, i) => select_text(
                a.to_string().as_str(),
                i.to_string().as_str(),
            ),
            TypedAssignee::Member(s, m) => member_text(s.to_string().as_str(), m.as_str()),
        }
    }

    pub fn copy(&self) -> (r: Self)
        ensures
            r@ == self@,
        decreases self,
    {
        match self {
            TypedAssignee::Identifier(v) => TypedAssignee::Identifier(v.clone()),
            TypedAssignee::Select(a, i) => TypedAssignee::Select(
                Box::new(a.copy()),
                Box::new(i.copy()),
            ),
            TypedAssignee::Member(s, m) => TypedAssignee::Member(Box::new(s.copy()), m.clone()),
        }
    }
}

impl<T: Field> View for TypedAssignee<T> {
    type V = TypedAssigneeView;

    open spec fn view(&self) -> TypedAssigneeView {
        self.model()
    }
}

impl<T: Field> Typed for TypedAssignee<T> {
    open spec fn typed(&self) -> bool {
        self@.typed()
    }

    open spec fn type_view(&self) -> TypeView {
        self@.get_type()
    }

    fn get_type(&self) -> (r: Type) {
        self.type_of()
    }
}

/// A call that returns several values: the function, the arguments, and the
/// types of what comes back.
#[derive(Debug, PartialEq)]
pub enum TypedExpressionList<T> {
    FunctionCall(FunctionKey, Vec<TypedExpression<T>>, Vec<Type>),
}

pub struct TypedExpressionListView {
    pub key: FunctionKeyView,
    pub arguments: Seq<TypedExpressionView>,
    pub types: Seq<TypeView>,
}

impl<T: Field> View for TypedExpressionList<T> {
    type V = TypedExpressionListView;

    open spec fn view(&self) -> TypedExpressionListView {
        match self {
            TypedExpressionList::FunctionCall(key, arguments, types) => TypedExpressionListView {
                key: key@,
                arguments: expressions_model(arguments),
                types: types_view(types@),
            },
        }
    }
}

impl<T: Field> MultiTyped for TypedExpressionList<T> {
    open spec fn types_view(&self) -> Seq<TypeView> {
        self@.types
    }

    fn get_types(&self) -> (r: &Vec<Type>) {
        match self {
            TypedExpressionList::FunctionCall(_, _, types) => types,
        }
    }
}

/// A statement of a typed function.
#[derive(Debug, PartialEq)]
pub enum TypedStatement<T> {
    Return(Vec<TypedExpression<T>>),
    Definition(TypedAssignee<T>, TypedExpression<T>),
    Declaration(Variable),
    Assertion(BooleanExpression<T>),
    For(
        Variable,
        FieldElementExpression<T>,
        FieldElementExpression<T>,
        Vec<TypedStatement<T>>,
    ),
    MultipleDefinition(Vec<TypedAssignee<T>>, TypedExpressionList<T>),
}

pub enum TypedStatementView {
    Return(Seq<TypedExpressionView>),
    Definition(TypedAssigneeView, TypedExpressionView),
    Declaration(VariableView),
    Assertion(BooleanExpressionView),
    For(
        VariableView,
        FieldElementExpressionView,
        FieldElementExpressionView,
        Seq<TypedStatementView>,
    ),
    MultipleDefinition(Seq<TypedAssigneeView>, TypedExpressionListView),
}

/// The views of a list of assignees.
pub open spec fn assignees_view<T: Field>(list: Seq<TypedAssignee<T>>) -> Seq<TypedAssigneeView> {
    Seq::new(list.len(), |i: int| list[i]@)
}

/// The views of a list of statements.
pub open spec fn statements_model<T: Field>(list: &Vec<TypedStatement<T>>) -> Seq<
    TypedStatementView,
>
    decreases list,
{
    Seq::new(
        list.len() as nat,
        |i: int|
            if 0 <= i < list.len() {
                list[i].model()
            } else {
                arbitrary()
            },
    )
}

impl<T: Field> TypedStatement<T> {
    pub open spec fn model(&self) -> TypedStatementView
        decreases self,
    {
        match self {
            TypedStatement::Return(es) => TypedStatementView::Return(expressions_model(es)),
            TypedStatement::Definition(a, e) => TypedStatementView::Definition(a@, e@),
            TypedStatement::Declaration(v) => TypedStatementView::Declaration(v@),
            TypedStatement::Assertion(e) => TypedStatementView::Assertion(e@),
            TypedStatement::For(v, from, to, body) => TypedStatementView::For(
                v@,
                from@,
                to@,
                statements_model(body),
            ),
            TypedStatement::MultipleDefinition(assignees, call) => {
                TypedStatementView::MultipleDefinition(assignees_view(assignees@), call@)
            },
        }
    }
}

impl<T: Field> View for TypedStatement<T> {
    type V = TypedStatementView;

    open spec fn view(&self) -> TypedStatementView {
        self.model()
    }
}

/// A typed function.
#[derive(Debug, PartialEq)]
pub struct TypedFunction<T> {
    /// The parameters of the function.
    pub arguments: Vec<Parameter>,
    /// The statements that run when the function is called.
    pub statements: Vec<TypedStatement<T>>,
    /// The signature of the function.
    pub signature: Signature,
}

pub struct TypedFunctionView {
    pub arguments: Seq<ParameterView>,
    pub statements: Seq<TypedStatementView>,
    pub signature: SignatureView,
}

/// The views of a list of parameters.
pub open spec fn parameters_view(list: Seq<Parameter>) -> Seq<ParameterView> {
    Seq::new(list.len(), |i: int| list[i]@)
}

impl<T: Field> View for TypedFunction<T> {
    type V = TypedFunctionView;

    open spec fn view(&self) -> TypedFunctionView {
        TypedFunctionView {
            arguments: parameters_view(self.arguments@),
            statements: statements_model(&self.statements),
            signature: self.signature@,
        }
    }
}

/// What a module knows under a function key: a function of its own, a
/// function of another module, or a built-in gadget.
#[derive(Debug, PartialEq)]
pub enum TypedFunctionSymbol<T> {
    Here(TypedFunction<T>),
    There(FunctionKey, TypedModuleId),
    Flat(FlatEmbed),
}

pub enum TypedFunctionSymbolView {
    Here(TypedFunctionView),
    There(FunctionKeyView, Seq<char>),
    Flat(FlatEmbedView),
}

impl<T: Field> View for TypedFunctionSymbol<T> {
    type V = TypedFunctionSymbolView;

    open spec fn view(&self) -> TypedFunctionSymbolView {
        match self {
            TypedFunctionSymbol::Here(f) => TypedFunctionSymbolView::Here(f@),
            TypedFunctionSymbol::There(k, m) => TypedFunctionSymbolView::There(k@, m@),
            TypedFunctionSymbol::Flat(e) => TypedFunctionSymbolView::Flat(e@),
        }
    }
}

/// The function symbols of a module, each under its key, in the order in
/// which the keys came. No two keys are equal.
#[derive(Debug, PartialEq)]
pub struct TypedFunctionSymbols<T> {
    pub entries: Vec<(FunctionKey, TypedFunctionSymbol<T>)>,
}

/// The position of the first entry whose key equals `key`, or the number of
/// entries if there is none.
pub open spec fn symbol_position<T>(
    entries: Seq<(FunctionKey, TypedFunctionSymbol<T>)>,
    key: FunctionKeyView,
) -> int
    decreases entries.len(),
{
    if entries.len() == 0 {
        0
    } else if same_key(entries[0].0@, key) {
        0
    } else {
        1 + symbol_position(entries.drop_first(), key)
    }
}

pub proof fn lemma_symbol_position<T>(
    entries: Seq<(FunctionKey, TypedFunctionSymbol<T>)>,
    key: FunctionKeyView,
)
    ensures
        0 <= symbol_position(entries, key) <= entries.len(),
        symbol_position(entries, key) < entries.len() ==> same_key(
            entries[symbol_position(entries, key)].0@,
            key,
        ),
        forall|j: int|
            0 <= j < symbol_position(entries, key) ==> !same_key(
                (#[trigger] entries[j]).0@,
                key,
            ),
    decreases entries.len(),
{
    if entries.len() != 0 && !same_key(entries[0].0@, key) {
        let rest = entries.drop_first();
        lemma_symbol_position(rest, key);
        assert forall|j: int| 0 <= j < symbol_position(entries, key) implies !same_key(
            (#[trigger] entries[j]).0@,
            key,
        ) by {
            if j > 0 {
                assert(entries[j] == rest[j - 1]);
            }
        }
    }
}

pub proof fn lemma_symbol_position_is<T>(
    entries: Seq<(FunctionKey, TypedFunctionSymbol<T>)>,
    key: FunctionKeyView,
    i: int,
)
    requires
        0 <= i <= entries.len(),
        i < entries.len() ==> same_key(entries[i].0@, key),
        forall|j: int| 0 <= j < i ==> !same_key((#[trigger] entries[j]).0@, key),
    ensures
        symbol_position(entries, key) == i,
{
    lemma_symbol_position(entries, key);
    let p = symbol_position(entries, key);
    if p < i {
        assert(same_key(entries[p].0@, key));
    }
}

impl<T: Field> TypedFunctionSymbols<T> {
    /// No key equals an earlier one.
    pub open spec fn wf(&self) -> bool {
        forall|i: int, j: int|
            0 <= i < j < self.entries.len() ==> !same_key(
                (#[trigger] self.entries[i]).0@,
                (#[trigger] self.entries[j]).0@,
            )
    }

    pub open spec fn contains(&self, key: FunctionKeyView) -> bool {
        symbol_position(self.entries@, key) < self.entries.len()
    }

    pub fn new() -> (r: Self)
        ensures
            r.entries@ == Seq::<(FunctionKey, TypedFunctionSymbol<T>)>::empty(),
            r.wf(),
    {
        TypedFunctionSymbols { entries: Vec::new() }
    }

    pub fn len(&self) -> (r: usize)
        ensures
            r == self.entries.len(),
    {
        self.entries.len()
    }

    /// Where the entry under `key` stands, if there is one.
    pub fn find(&self, key: &FunctionKey) -> (r: Option<usize>)
        ensures
            r is Some <==> self.contains(key@),
            r matches Some(i) ==> i == symbol_position(self.entries@, key@),
    {
        let mut i: usize = 0;
        while i < self.entries.len()
            invariant
                i <= self.entries.len(),
                forall|j: int| 0 <= j < i ==> !same_key((#[trigger] self.entries[j]).0@, key@),
            decreases self.entries.len() - i,
        {
            if self.entries[i].0.same(key) {
                proof {
                    lemma_symbol_position_is(self.entries@, key@, i as int);
                }
                return Some(i);
            }
            i += 1;
        }
        proof {
            lemma_symbol_position_is(self.entries@, key@, i as int);
        }
        None
    }

    pub fn contains_key(&self, key: &FunctionKey) -> (r: bool)
        ensures
            r == self.contains(key@),
    {
        self.find(key).is_some()
    }

    pub fn get(&self, key: &FunctionKey) -> (r: Option<&TypedFunctionSymbol<T>>)
        ensures
            r is Some <==> self.contains(key@),
            r matches Some(v) ==> *v == self.entries[symbol_position(self.entries@, key@)].1,
    {
        match self.find(key) {
            Some(i) => Some(&self.entries[i].1),
            None => None,
        }
    }

    /// Puts `symbol` under `key`. Where an equal key is there already, its
    /// entry keeps its key and its place, and takes the new symbol.
    pub fn insert(&mut self, key: FunctionKey, symbol: TypedFunctionSymbol<T>) -> (r: bool)
        requires
            old(self).wf(),
        ensures
            final(self).wf(),
            r == !old(self).contains(key@),
            r ==> final(self).entries@ == old(self).entries@.push((key, symbol)),
            !r ==> final(self).entries@ == old(self).entries@.update(
                symbol_position(old(self).entries@, key@),
                (old(self).entries[symbol_position(old(self).entries@, key@)].0, symbol),
            ),
    {
        let ghost before = self.entries@;
        match self.find(&key) {
            Some(i) => {
                let previous = self.entries.remove(i);
                self.entries.insert(i, (previous.0, symbol));
                proof {
                    let after = self.entries@;
                    assert(after =~= before.update(i as int, (before[i as int].0, symbol)));
                    assert forall|a: int, b: int| 0 <= a < b < after.len() implies !same_key(
                        (#[trigger] after[a]).0@,
                        (#[trigger] after[b]).0@,
                    ) by {
                        assert(!same_key(before[a].0@, before[b].0@));
                    }
                }
                false
            },
            None => {
                self.entries.push((key, symbol));
                proof {
                    lemma_symbol_position(before, key@);
                    let after = self.entries@;
                    assert forall|a: int, b: int| 0 <= a < b < after.len() implies !same_key(
                        (#[trigger] after[a]).0@,
                        (#[trigger] after[b]).0@,
                    ) by {
                        if b < before.len() {
                            assert(!same_key(before[a].0@, before[b].0@));
                        } else {
                            assert(after[a] == before[a]);
                        }
                    }
                }
                true
            },
        }
    }
}

/// The views of the entries of a module.
pub open spec fn symbols_view<T: Field>(
    entries: Seq<(FunctionKey, TypedFunctionSymbol<T>)>,
) -> Seq<(FunctionKeyView, TypedFunctionSymbolView)> {
    Seq::new(entries.len(), |i: int| (entries[i].0@, entries[i].1@))
}

/// A typed module: its function symbols.
#[derive(Debug, PartialEq)]
pub struct TypedModule<T> {
    pub functions: TypedFunctionSymbols<T>,
}

pub struct TypedModuleView {
    pub functions: Seq<(FunctionKeyView, TypedFunctionSymbolView)>,
}

impl<T: Field> View for TypedModule<T> {
    type V = TypedModuleView;

    open spec fn view(&self) -> TypedModuleView {
        TypedModuleView { functions: symbols_view(self.functions.entries@) }
    }
}

/// The typed modules of a program, each under what identifies it.
pub type TypedModules<T> = StringMap<TypedModule<T>>;

/// The views of the modules of a program.
pub open spec fn modules_view<T: Field>(entries: Seq<(String, TypedModule<T>)>) -> Seq<
    (Seq<char>, TypedModuleView),
> {
    Seq::new(entries.len(), |i: int| (entries[i].0@, entries[i].1@))
}

/// A typed program: its modules, and which of them is the main one.
#[derive(Debug, PartialEq)]
pub struct TypedProgram<T> {
    pub modules: TypedModules<T>,
    pub main: TypedModuleId,
}

pub struct TypedProgramView {
    pub modules: Seq<(Seq<char>, TypedModuleView)>,
    pub main: Seq<char>,
}

impl<T: Field> View for TypedProgram<T> {
    type V = TypedProgramView;

    open spec fn view(&self) -> TypedProgramView {
        TypedProgramView { modules: modules_view(self.modules.entries@), main: self.main@ }
    }
}

} // verus!
