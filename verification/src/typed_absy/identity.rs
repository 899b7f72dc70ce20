//! A folder that says nothing leaves every program as it is.

use vstd::prelude::*;
use crate::typed_absy::expression::{
    ArrayExpressionInnerView, ArrayExpressionView, BooleanExpressionView,
    FieldElementExpressionView, StructExpressionInnerView, StructExpressionView,
    TypedExpressionView, UExpressionInnerView, UExpressionView,
};
use crate::typed_absy::folder::{
    Folded, FolderSpec, array_parts, boolean_parts, field_parts, folded_array, folded_assignee,
    folded_assignees, folded_boolean, folded_expression, folded_expressions, folded_field,
    folded_function, folded_modules, folded_parameters, folded_program, folded_statement,
    folded_statements, folded_struct, folded_symbols, folded_uint, statement_parts, struct_parts,
    uint_parts,
};
use crate::typed_absy::identifier::IdentifierView;
use crate::typed_absy::parameter::ParameterView;
use crate::typed_absy::program::{
    TypedAssigneeView, TypedExpressionListView, TypedFunctionSymbolView, TypedFunctionView, TypedModuleView,
    TypedProgramView, TypedStatementView,
};
use crate::typed_absy::variable::VariableView;
use crate::typed_absy::types::{FunctionKeyView, StructTypeView, TypeView, UBitwidth};

verus! {

/// Whether the folder says nothing: names stay, no expression is replaced,
/// and statements stay as they were folded, whatever the folder knows.
pub open spec fn overrides_nothing<F: FolderSpec>() -> bool {
    &&& forall|st: F::V, n: IdentifierView| #[trigger] F::name_fold(st, n) == (st, n)
    &&& forall|st: F::V, v: VariableView| #[trigger] F::variable_hook(st, v) == (st, Folded::Recurse(v))
    &&& forall|st: F::V, p: ParameterView| #[trigger]
        F::parameter_hook(st, p) == (st, Folded::Recurse(p))
    &&& forall|st: F::V, es: TypedExpressionListView| #[trigger]
        F::expression_list_hook(st, es) == (st, Folded::Recurse(es))
    &&& forall|st: F::V, f: TypedFunctionView| #[trigger]
        F::function_hook(st, f) == (st, Folded::Recurse(f))
    &&& forall|st: F::V, s: TypedFunctionSymbolView| #[trigger]
        F::function_symbol_hook(st, s) == (st, Folded::Recurse(s))
    &&& forall|st: F::V, m: TypedModuleView| #[trigger]
        F::module_hook(st, m) == (st, Folded::Recurse(m))
    &&& forall|st: F::V, p: TypedProgramView| #[trigger]
        F::program_hook(st, p) == (st, Folded::Recurse(p))
    &&& forall|st: F::V, a: TypedAssigneeView| #[trigger]
        F::assignee_hook(st, a) == (st, None::<TypedAssigneeView>)
    &&& forall|st: F::V, s: TypedStatementView| #[trigger]
        F::statement_enter(st, s) == (st, None::<Seq<TypedStatementView>>)
    &&& forall|st: F::V, e: TypedExpressionView| #[trigger]
        F::expression_hook(st, e) == (st, None::<TypedExpressionView>)
    &&& forall|st: F::V, e: UExpressionView| #[trigger]
        F::uint_outer_hook(st, e) == (st, None::<UExpressionView>)
    &&& forall|st: F::V, e: ArrayExpressionView| #[trigger]
        F::array_outer_hook(st, e) == (st, None::<ArrayExpressionView>)
    &&& forall|st: F::V, e: StructExpressionView| #[trigger]
        F::struct_outer_hook(st, e) == (st, None::<StructExpressionView>)
    &&& forall|st: F::V, e: FieldElementExpressionView| #[trigger]
        F::field_hook(st, e) == (st, None::<FieldElementExpressionView>)
    &&& forall|st: F::V, e: BooleanExpressionView| #[trigger]
        F::boolean_hook(st, e) == (st, None::<BooleanExpressionView>)
    &&& forall|st: F::V, w: UBitwidth, e: UExpressionInnerView| #[trigger]
        F::uint_hook(st, w, e) == (st, None::<UExpressionInnerView>)
    &&& forall|st: F::V, ty: TypeView, size: nat, e: ArrayExpressionInnerView| #[trigger]
        F::array_hook(st, ty, size, e) == (st, None::<ArrayExpressionInnerView>)
    &&& forall|st: F::V, ty: StructTypeView, e: StructExpressionInnerView| #[trigger]
        F::struct_hook(st, ty, e) == (st, None::<StructExpressionInnerView>)
    &&& forall|st: F::V, e: FieldElementExpressionView| #[trigger] F::field_done(st, e) == (st, e)
    &&& forall|st: F::V, e: BooleanExpressionView| #[trigger] F::boolean_done(st, e) == (st, e)
    &&& forall|st: F::V, w: UBitwidth, e: UExpressionInnerView| #[trigger]
        F::uint_done(st, w, e) == (st, e)
    &&& forall|st: F::V, ty: TypeView, size: nat, e: ArrayExpressionInnerView| #[trigger]
        F::array_done(st, ty, size, e) == (st, e)
    &&& forall|st: F::V, ty: StructTypeView, e: StructExpressionInnerView| #[trigger]
        F::struct_done(st, ty, e) == (st, e)
    &&& forall|st: F::V, s: Seq<TypedStatementView>| #[trigger]
        F::statement_hook(st, s) == (st, s)
}

pub proof fn lemma_identity_expressions<F: FolderSpec>(
    st: F::V,
    list: Seq<TypedExpressionView>,
    n: nat,
)
    requires
        overrides_nothing::<F>(),
        n <= list.len(),
    ensures
        folded_expressions::<F>(st, list, n) == (st, list.take(n as int)),
    decreases list, n,
{
    if n == 0 {
        assert(list.take(0) =~= Seq::<TypedExpressionView>::empty());
    } else {
        lemma_identity_expressions::<F>(st, list, (n - 1) as nat);
        lemma_identity_expression::<F>(st, list[n - 1]);
        assert(list.take(n as int) =~= list.take(n - 1).push(list[n - 1]));
    }
}

pub proof fn lemma_identity_all_expressions<F: FolderSpec>(
    st: F::V,
    list: Seq<TypedExpressionView>,
)
    requires
        overrides_nothing::<F>(),
    ensures
        folded_expressions::<F>(st, list, list.len()) == (st, list),
    decreases list, list.len() + 1,
{
    lemma_identity_expressions::<F>(st, list, list.len());
    assert(list.take(list.len() as int) =~= list);
}

pub proof fn lemma_identity_expression<F: FolderSpec>(st: F::V, e: TypedExpressionView)
    requires
        overrides_nothing::<F>(),
    ensures
        folded_expression::<F>(st, e) == (st, e),
    decreases e, 2nat,
{
    match e {
        TypedExpressionView::FieldElement(x) => lemma_identity_field::<F>(st, x),
        TypedExpressionView::Boolean(x) => lemma_identity_boolean::<F>(st, x),
        TypedExpressionView::Uint(x) => lemma_identity_uint::<F>(st, x),
        TypedExpressionView::Array(x) => lemma_identity_array::<F>(st, x),
        TypedExpressionView::Struct(x) => lemma_identity_struct::<F>(st, x),
    }
}

pub proof fn lemma_identity_field<F: FolderSpec>(st: F::V, e: FieldElementExpressionView)
    requires
        overrides_nothing::<F>(),
    ensures
        folded_field::<F>(st, e) == (st, e),
        field_parts::<F>(st, e) == (st, e),
    decreases e, 1nat,
{
    match e {
        FieldElementExpressionView::Number(_) => {},
        FieldElementExpressionView::Identifier(_) => {},
        FieldElementExpressionView::Binary(_, a, b) => {
            lemma_identity_field::<F>(st, *a);
            lemma_identity_field::<F>(st, *b);
        },
        FieldElementExpressionView::IfElse(c, a, b) => {
            lemma_identity_boolean::<F>(st, *c);
            lemma_identity_field::<F>(st, *a);
            lemma_identity_field::<F>(st, *b);
        },
        FieldElementExpressionView::FunctionCall(_, args) => {
            lemma_identity_all_expressions::<F>(st, args);
        },
        FieldElementExpressionView::Member(s, _) => {
            lemma_identity_struct::<F>(st, *s);
        },
        FieldElementExpressionView::Select(a, i) => {
            lemma_identity_array::<F>(st, *a);
            lemma_identity_field::<F>(st, *i);
        },
    }
}

pub proof fn lemma_identity_boolean<F: FolderSpec>(st: F::V, e: BooleanExpressionView)
    requires
        overrides_nothing::<F>(),
    ensures
        folded_boolean::<F>(st, e) == (st, e),
        boolean_parts::<F>(st, e) == (st, e),
    decreases e, 1nat,
{
    match e {
        BooleanExpressionView::Value(_) => {},
        BooleanExpressionView::Identifier(_) => {},
        BooleanExpressionView::Compare(_, a, b) => {
            lemma_identity_field::<F>(st, *a);
            lemma_identity_field::<F>(st, *b);
        },
        BooleanExpressionView::Binary(_, a, b) => {
            lemma_identity_boolean::<F>(st, *a);
            lemma_identity_boolean::<F>(st, *b);
        },
        BooleanExpressionView::ArrayEq(a, b) => {
            lemma_identity_array::<F>(st, *a);
            lemma_identity_array::<F>(st, *b);
        },
        BooleanExpressionView::StructEq(a, b) => {
            lemma_identity_struct::<F>(st, *a);
            lemma_identity_struct::<F>(st, *b);
        },
        BooleanExpressionView::UintEq(a, b) => {
            lemma_identity_uint::<F>(st, *a);
            lemma_identity_uint::<F>(st, *b);
        },
        BooleanExpressionView::Not(a) => {
            lemma_identity_boolean::<F>(st, *a);
        },
        BooleanExpressionView::IfElse(c, a, b) => {
            lemma_identity_boolean::<F>(st, *c);
            lemma_identity_boolean::<F>(st, *a);
            lemma_identity_boolean::<F>(st, *b);
        },
        BooleanExpressionView::Member(s, _) => {
            lemma_identity_struct::<F>(st, *s);
        },
        BooleanExpressionView::FunctionCall(_, args) => {
            lemma_identity_all_expressions::<F>(st, args);
        },
        BooleanExpressionView::Select(a, i) => {
            lemma_identity_array::<F>(st, *a);
            lemma_identity_field::<F>(st, *i);
        },
    }
}

pub proof fn lemma_identity_uint<F: FolderSpec>(st: F::V, e: UExpressionView)
    requires
        overrides_nothing::<F>(),
    ensures
        folded_uint::<F>(st, e) == (st, e),
    decreases e, 2nat,
{
    lemma_identity_uint_parts::<F>(st, e.inner);
}

pub proof fn lemma_identity_uint_parts<F: FolderSpec>(st: F::V, e: UExpressionInnerView)
    requires
        overrides_nothing::<F>(),
    ensures
        uint_parts::<F>(st, e) == (st, e),
    decreases e, 0nat,
{
    match e {
        UExpressionInnerView::Value(_) => {},
        UExpressionInnerView::Identifier(_) => {},
        UExpressionInnerView::Binary(_, a, b) => {
            lemma_identity_uint::<F>(st, *a);
            lemma_identity_uint::<F>(st, *b);
        },
        UExpressionInnerView::Shift(_, a, by) => {
            lemma_identity_uint::<F>(st, *a);
            lemma_identity_field::<F>(st, *by);
        },
        UExpressionInnerView::Not(a) => {
            lemma_identity_uint::<F>(st, *a);
        },
        UExpressionInnerView::FunctionCall(_, args) => {
            lemma_identity_all_expressions::<F>(st, args);
        },
        UExpressionInnerView::Select(a, i) => {
            lemma_identity_array::<F>(st, *a);
            lemma_identity_field::<F>(st, *i);
        },
        UExpressionInnerView::IfElse(c, a, b) => {
            lemma_identity_boolean::<F>(st, *c);
            lemma_identity_uint::<F>(st, *a);
            lemma_identity_uint::<F>(st, *b);
        },
        UExpressionInnerView::Member(s, _) => {
            lemma_identity_struct::<F>(st, *s);
        },
    }
}

pub proof fn lemma_identity_array<F: FolderSpec>(st: F::V, e: ArrayExpressionView)
    requires
        overrides_nothing::<F>(),
    ensures
        folded_array::<F>(st, e) == (st, e),
    decreases e, 2nat,
{
    lemma_identity_array_parts::<F>(st, e.inner);
}

pub proof fn lemma_identity_array_parts<F: FolderSpec>(st: F::V, e: ArrayExpressionInnerView)
    requires
        overrides_nothing::<F>(),
    ensures
        array_parts::<F>(st, e) == (st, e),
    decreases e, 0nat,
{
    match e {
        ArrayExpressionInnerView::Identifier(_) => {},
        ArrayExpressionInnerView::Value(v) => {
            lemma_identity_all_expressions::<F>(st, v);
        },
        ArrayExpressionInnerView::FunctionCall(_, args) => {
            lemma_identity_all_expressions::<F>(st, args);
        },
        ArrayExpressionInnerView::IfElse(c, a, b) => {
            lemma_identity_boolean::<F>(st, *c);
            lemma_identity_array::<F>(st, *a);
            lemma_identity_array::<F>(st, *b);
        },
        ArrayExpressionInnerView::Member(s, _) => {
            lemma_identity_struct::<F>(st, *s);
        },
        ArrayExpressionInnerView::Select(a, i) => {
            lemma_identity_array::<F>(st, *a);
            lemma_identity_field::<F>(st, *i);
        },
    }
}

pub proof fn lemma_identity_struct<F: FolderSpec>(st: F::V, e: StructExpressionView)
    requires
        overrides_nothing::<F>(),
    ensures
        folded_struct::<F>(st, e) == (st, e),
    decreases e, 2nat,
{
    lemma_identity_struct_parts::<F>(st, e.inner);
}

pub proof fn lemma_identity_struct_parts<F: FolderSpec>(st: F::V, e: StructExpressionInnerView)
    requires
        overrides_nothing::<F>(),
    ensures
        struct_parts::<F>(st, e) == (st, e),
    decreases e, 0nat,
{
    match e {
        StructExpressionInnerView::Identifier(_) => {},
        StructExpressionInnerView::Value(v) => {
            lemma_identity_all_expressions::<F>(st, v);
        },
        StructExpressionInnerView::FunctionCall(_, args) => {
            lemma_identity_all_expressions::<F>(st, args);
        },
        StructExpressionInnerView::IfElse(c, a, b) => {
            lemma_identity_boolean::<F>(st, *c);
            lemma_identity_struct::<F>(st, *a);
            lemma_identity_struct::<F>(st, *b);
        },
        StructExpressionInnerView::Member(s, _) => {
            lemma_identity_struct::<F>(st, *s);
        },
        StructExpressionInnerView::Select(a, i) => {
            lemma_identity_array::<F>(st, *a);
            lemma_identity_field::<F>(st, *i);
        },
    }
}

pub proof fn lemma_identity_assignee<F: FolderSpec>(st: F::V, a: TypedAssigneeView)
    requires
        overrides_nothing::<F>(),
    ensures
        folded_assignee::<F>(st, a) == (st, a),
    decreases a,
{
    match a {
        TypedAssigneeView::Identifier(_) => {},
        TypedAssigneeView::Select(x, index) => {
            lemma_identity_assignee::<F>(st, *x);
            lemma_identity_field::<F>(st, *index);
        },
        TypedAssigneeView::Member(x, _) => {
            lemma_identity_assignee::<F>(st, *x);
        },
    }
}

pub proof fn lemma_identity_assignees<F: FolderSpec>(
    st: F::V,
    list: Seq<TypedAssigneeView>,
    n: nat,
)
    requires
        overrides_nothing::<F>(),
        n <= list.len(),
    ensures
        folded_assignees::<F>(st, list, n) == (st, list.take(n as int)),
    decreases n,
{
    if n == 0 {
        assert(list.take(0) =~= Seq::<TypedAssigneeView>::empty());
    } else {
        lemma_identity_assignees::<F>(st, list, (n - 1) as nat);
        lemma_identity_assignee::<F>(st, list[n - 1]);
        assert(list.take(n as int) =~= list.take(n - 1).push(list[n - 1]));
    }
}

pub proof fn lemma_identity_statements<F: FolderSpec>(
    st: F::V,
    list: Seq<TypedStatementView>,
    n: nat,
)
    requires
        overrides_nothing::<F>(),
        n <= list.len(),
    ensures
        folded_statements::<F>(st, list, n) == (st, list.take(n as int)),
    decreases list, n,
{
    if n == 0 {
        assert(list.take(0) =~= Seq::<TypedStatementView>::empty());
    } else {
        lemma_identity_statements::<F>(st, list, (n - 1) as nat);
        lemma_identity_statement::<F>(st, list[n - 1]);
        assert(list.take(n as int) =~= list.take(n - 1) + seq![list[n - 1]]);
    }
}

pub proof fn lemma_identity_statement<F: FolderSpec>(st: F::V, s: TypedStatementView)
    requires
        overrides_nothing::<F>(),
    ensures
        folded_statement::<F>(st, s) == (st, seq![s]),
        statement_parts::<F>(st, s) == (st, s),
    decreases s, 1nat,
{
    match s {
        TypedStatementView::Return(es) => {
            lemma_identity_all_expressions::<F>(st, es);
        },
        TypedStatementView::Definition(a, e) => {
            lemma_identity_assignee::<F>(st, a);
            lemma_identity_expression::<F>(st, e);
        },
        TypedStatementView::Declaration(_) => {},
        TypedStatementView::Assertion(e) => {
            lemma_identity_boolean::<F>(st, e);
        },
        TypedStatementView::For(_, _, _, body) => {
            lemma_identity_statements::<F>(st, body, body.len());
            assert(body.take(body.len() as int) =~= body);
        },
        TypedStatementView::MultipleDefinition(assignees, call) => {
            lemma_identity_assignees::<F>(st, assignees, assignees.len());
            assert(assignees.take(assignees.len() as int) =~= assignees);
            lemma_identity_all_expressions::<F>(st, call.arguments);
        },
    }
}

pub proof fn lemma_identity_parameters<F: FolderSpec>(st: F::V, list: Seq<ParameterView>, n: nat)
    requires
        overrides_nothing::<F>(),
        n <= list.len(),
    ensures
        folded_parameters::<F>(st, list, n) == (st, list.take(n as int)),
    decreases n,
{
    if n == 0 {
        assert(list.take(0) =~= Seq::<ParameterView>::empty());
    } else {
        lemma_identity_parameters::<F>(st, list, (n - 1) as nat);
        assert(list.take(n as int) =~= list.take(n - 1).push(list[n - 1]));
    }
}

pub proof fn lemma_identity_function<F: FolderSpec>(st: F::V, f: TypedFunctionView)
    requires
        overrides_nothing::<F>(),
    ensures
        folded_function::<F>(st, f) == (st, f),
{
    lemma_identity_parameters::<F>(st, f.arguments, f.arguments.len());
    assert(f.arguments.take(f.arguments.len() as int) =~= f.arguments);
    lemma_identity_statements::<F>(st, f.statements, f.statements.len());
    assert(f.statements.take(f.statements.len() as int) =~= f.statements);
}

pub proof fn lemma_identity_symbols<F: FolderSpec>(
    st: F::V,
    list: Seq<(FunctionKeyView, TypedFunctionSymbolView)>,
    n: nat,
)
    requires
        overrides_nothing::<F>(),
        n <= list.len(),
    ensures
        folded_symbols::<F>(st, list, n) == (st, list.take(n as int)),
    decreases n,
{
    if n == 0 {
        assert(list.take(0) =~= Seq::<(FunctionKeyView, TypedFunctionSymbolView)>::empty());
    } else {
        lemma_identity_symbols::<F>(st, list, (n - 1) as nat);
        match list[n - 1].1 {
            TypedFunctionSymbolView::Here(f) => lemma_identity_function::<F>(st, f),
            _ => {},
        }
        assert(list.take(n as int) =~= list.take(n - 1).push(list[n - 1]));
    }
}

pub proof fn lemma_identity_modules<F: FolderSpec>(
    st: F::V,
    list: Seq<(Seq<char>, TypedModuleView)>,
    n: nat,
)
    requires
        overrides_nothing::<F>(),
        n <= list.len(),
    ensures
        folded_modules::<F>(st, list, n) == (st, list.take(n as int)),
    decreases n,
{
    if n == 0 {
        assert(list.take(0) =~= Seq::<(Seq<char>, TypedModuleView)>::empty());
    } else {
        lemma_identity_modules::<F>(st, list, (n - 1) as nat);
        let functions = list[n - 1].1.functions;
        lemma_identity_symbols::<F>(st, functions, functions.len());
        assert(functions.take(functions.len() as int) =~= functions);
        assert(list.take(n as int) =~= list.take(n - 1).push(list[n - 1]));
    }
}

/// A folder that says nothing leaves every program as it is, and knows
/// afterwards what it knew before.
pub proof fn law_identity<F: FolderSpec>(st: F::V, p: TypedProgramView)
    requires
        overrides_nothing::<F>(),
    ensures
        folded_program::<F>(st, p) == (st, p),
{
    lemma_identity_modules::<F>(st, p.modules, p.modules.len());
    assert(p.modules.take(p.modules.len() as int) =~= p.modules);
}

} // verus!
