//! Programs that read arrays at constants only, and what the pass makes
//! of them: nothing.

use vstd::prelude::*;
use crate::field::Field;
use crate::static_analysis::variable_read_remover::VariableReadRemover;
use crate::typed_absy::expression::{
    ArrayExpressionInnerView, ArrayExpressionView, BooleanExpressionView,
    FieldElementExpressionView, StructExpressionInnerView, StructExpressionView,
    TypedExpressionView, UExpressionInnerView, UExpressionView,
};
use crate::typed_absy::folder::{
    folded_array, folded_assignee, folded_assignees,
    folded_boolean, folded_expression, folded_expressions, folded_field, folded_function,
    folded_modules, folded_parameters, folded_program, folded_statement, folded_statements,
    folded_struct, folded_symbols, folded_uint, statement_parts,
};
use crate::typed_absy::parameter::ParameterView;
use crate::typed_absy::program::{
    TypedAssigneeView, TypedFunctionSymbolView, TypedFunctionView, TypedModuleView,
    TypedProgramView, TypedStatementView,
};
use crate::typed_absy::types::FunctionKeyView;

verus! {

/// Whether every read of an array in each expression of the list is at a
/// constant.
pub open spec fn constant_in_expressions(list: Seq<TypedExpressionView>) -> bool
    decreases list, 0nat,
{
    forall|k: int| 0 <= k < list.len() ==> constant_in_expression(#[trigger] list[k])
}

/// Whether every read of an array in the expression is at a constant.
pub open spec fn constant_in_expression(e: TypedExpressionView) -> bool
    decreases e, 2nat,
{
    match e {
        TypedExpressionView::FieldElement(x) => constant_in_field(x),
        TypedExpressionView::Boolean(x) => constant_in_boolean(x),
        TypedExpressionView::Uint(x) => constant_in_uint(x),
        TypedExpressionView::Array(x) => constant_in_array(x),
        TypedExpressionView::Struct(x) => constant_in_struct(x),
    }
}

/// Whether every read of an array in the field expression is at a
/// constant.
pub open spec fn constant_in_field(e: FieldElementExpressionView) -> bool
    decreases e, 1nat,
{
    match e {
        FieldElementExpressionView::Number(_) => true,
        FieldElementExpressionView::Identifier(_) => true,
        FieldElementExpressionView::Binary(_, a, b) => constant_in_field(*a) && constant_in_field(*b),
        FieldElementExpressionView::IfElse(c, a, b) => constant_in_boolean(*c) && constant_in_field(
            *a,
        ) && constant_in_field(*b),
        FieldElementExpressionView::FunctionCall(_, args) => constant_in_expressions(args),
        FieldElementExpressionView::Member(s, _) => constant_in_struct(*s),
        FieldElementExpressionView::Select(a, i) => *i is Number && constant_in_array(*a),
    }
}

/// Whether every read of an array in the boolean expression is at a
/// constant.
pub open spec fn constant_in_boolean(e: BooleanExpressionView) -> bool
    decreases e, 1nat,
{
    match e {
        BooleanExpressionView::Value(_) => true,
        BooleanExpressionView::Identifier(_) => true,
        BooleanExpressionView::Compare(_, a, b) => constant_in_field(*a) && constant_in_field(*b),
        BooleanExpressionView::Binary(_, a, b) => constant_in_boolean(*a) && constant_in_boolean(*b),
        BooleanExpressionView::ArrayEq(a, b) => constant_in_array(*a) && constant_in_array(*b),
        BooleanExpressionView::StructEq(a, b) => constant_in_struct(*a) && constant_in_struct(*b),
        BooleanExpressionView::UintEq(a, b) => constant_in_uint(*a) && constant_in_uint(*b),
        BooleanExpressionView::Not(a) => constant_in_boolean(*a),
        BooleanExpressionView::IfElse(c, a, b) => constant_in_boolean(*c) && constant_in_boolean(
            *a,
        ) && constant_in_boolean(*b),
        BooleanExpressionView::Member(s, _) => constant_in_struct(*s),
        BooleanExpressionView::FunctionCall(_, args) => constant_in_expressions(args),
        BooleanExpressionView::Select(a, i) => *i is Number && constant_in_array(*a),
    }
}

/// Whether every read of an array in the unsigned integer expression is at
/// a constant.
pub open spec fn constant_in_uint(e: UExpressionView) -> bool
    decreases e, 2nat,
{
    constant_in_uint_inner(e.inner)
}

pub open spec fn constant_in_uint_inner(e: UExpressionInnerView) -> bool
    decreases e, 0nat,
{
    match e {
        UExpressionInnerView::Value(_) => true,
        UExpressionInnerView::Identifier(_) => true,
        UExpressionInnerView::Binary(_, a, b) => constant_in_uint(*a) && constant_in_uint(*b),
        UExpressionInnerView::Shift(_, a, by) => constant_in_uint(*a) && constant_in_field(*by),
        UExpressionInnerView::Not(a) => constant_in_uint(*a),
        UExpressionInnerView::FunctionCall(_, args) => constant_in_expressions(args),
        UExpressionInnerView::Select(a, i) => *i is Number && constant_in_array(*a),
        UExpressionInnerView::IfElse(c, a, b) => constant_in_boolean(*c) && constant_in_uint(*a)
            && constant_in_uint(*b),
        UExpressionInnerView::Member(s, _) => constant_in_struct(*s),
    }
}

/// Whether every read of an array in the array expression is at a
/// constant.
pub open spec fn constant_in_array(e: ArrayExpressionView) -> bool
    decreases e, 2nat,
{
    constant_in_array_inner(e.inner)
}

pub open spec fn constant_in_array_inner(e: ArrayExpressionInnerView) -> bool
    decreases e, 0nat,
{
    match e {
        ArrayExpressionInnerView::Identifier(_) => true,
        ArrayExpressionInnerView::Value(v) => constant_in_expressions(v),
        ArrayExpressionInnerView::FunctionCall(_, args) => constant_in_expressions(args),
        ArrayExpressionInnerView::IfElse(c, a, b) => constant_in_boolean(*c) && constant_in_array(*a)
            && constant_in_array(*b),
        ArrayExpressionInnerView::Member(s, _) => constant_in_struct(*s),
        ArrayExpressionInnerView::Select(a, i) => *i is Number && constant_in_array(*a),
    }
}

/// Whether every read of an array in the struct expression is at a
/// constant.
pub open spec fn constant_in_struct(e: StructExpressionView) -> bool
    decreases e, 2nat,
{
    constant_in_struct_inner(e.inner)
}

pub open spec fn constant_in_struct_inner(e: StructExpressionInnerView) -> bool
    decreases e, 0nat,
{
    match e {
        StructExpressionInnerView::Identifier(_) => true,
        StructExpressionInnerView::Value(v) => constant_in_expressions(v),
        StructExpressionInnerView::FunctionCall(_, args) => constant_in_expressions(args),
        StructExpressionInnerView::IfElse(c, a, b) => constant_in_boolean(*c) && constant_in_struct(
            *a,
        ) && constant_in_struct(*b),
        StructExpressionInnerView::Member(s, _) => constant_in_struct(*s),
        StructExpressionInnerView::Select(a, i) => *i is Number && constant_in_array(*a),
    }
}

/// Whether every read of an array in the indices of the assignee is at a
/// constant.
pub open spec fn constant_in_assignee(a: TypedAssigneeView) -> bool
    decreases a,
{
    match a {
        TypedAssigneeView::Identifier(_) => true,
        TypedAssigneeView::Select(x, index) => constant_in_assignee(*x) && constant_in_field(*index),
        TypedAssigneeView::Member(x, _) => constant_in_assignee(*x),
    }
}

/// Whether every read of an array in each statement of the list is at a
/// constant.
pub open spec fn constant_in_statements(list: Seq<TypedStatementView>) -> bool
    decreases list, 0nat,
{
    forall|k: int| 0 <= k < list.len() ==> constant_in_statement(#[trigger] list[k])
}

/// Whether every read of an array in the statement is at a constant.
pub open spec fn constant_in_statement(s: TypedStatementView) -> bool
    decreases s, 1nat,
{
    match s {
        TypedStatementView::Return(es) => constant_in_expressions(es),
        TypedStatementView::Definition(a, e) => constant_in_assignee(a) && constant_in_expression(e),
        TypedStatementView::Declaration(_) => true,
        TypedStatementView::Assertion(e) => constant_in_boolean(e),
        TypedStatementView::For(_, from, to, body) => constant_in_field(from) && constant_in_field(
            to,
        ) && constant_in_statements(body),
        TypedStatementView::MultipleDefinition(assignees, call) => {
            &&& forall|k: int|
                0 <= k < assignees.len() ==> constant_in_assignee(#[trigger] assignees[k])
            &&& constant_in_expressions(call.arguments)
        },
    }
}

/// Whether every read of an array in the functions of the module is at a
/// constant.
pub open spec fn constant_in_module(m: TypedModuleView) -> bool {
    forall|k: int|
        0 <= k < m.functions.len() ==> match (#[trigger] m.functions[k]).1 {
            TypedFunctionSymbolView::Here(f) => constant_in_statements(f.statements),
            _ => true,
        }
}

/// Whether every read of an array in the program is at a constant.
pub open spec fn constant_in_program(p: TypedProgramView) -> bool {
    forall|k: int| 0 <= k < p.modules.len() ==> constant_in_module((#[trigger] p.modules[k]).1)
}

proof fn lemma_expressions<T: Field>(
    st: Seq<TypedStatementView>,
    list: Seq<TypedExpressionView>,
    n: nat,
)
    requires
        constant_in_expressions(list),
        n <= list.len(),
    ensures
        folded_expressions::<VariableReadRemover<T>>(st, list, n) == (st, list.take(n as int)),
    decreases list, n,
{
    if n == 0 {
        assert(list.take(0) =~= Seq::<TypedExpressionView>::empty());
    } else {
        lemma_expressions::<T>(st, list, (n - 1) as nat);
        lemma_expression::<T>(st, list[n - 1]);
        assert(list.take(n as int) =~= list.take(n - 1).push(list[n - 1]));
    }
}

proof fn lemma_all_expressions<T: Field>(
    st: Seq<TypedStatementView>,
    list: Seq<TypedExpressionView>,
)
    requires
        constant_in_expressions(list),
    ensures
        folded_expressions::<VariableReadRemover<T>>(st, list, list.len()) == (st, list),
    decreases list, list.len() + 1,
{
    lemma_expressions::<T>(st, list, list.len());
    assert(list.take(list.len() as int) =~= list);
}

proof fn lemma_expression<T: Field>(st: Seq<TypedStatementView>, e: TypedExpressionView)
    requires
        constant_in_expression(e),
    ensures
        folded_expression::<VariableReadRemover<T>>(st, e) == (st, e),
    decreases e, 2nat,
{
    match e {
        TypedExpressionView::FieldElement(x) => lemma_field::<T>(st, x),
        TypedExpressionView::Boolean(x) => lemma_boolean::<T>(st, x),
        TypedExpressionView::Uint(x) => lemma_uint::<T>(st, x),
        TypedExpressionView::Array(x) => lemma_array::<T>(st, x),
        TypedExpressionView::Struct(x) => lemma_struct::<T>(st, x),
    }
}

proof fn lemma_field<T: Field>(st: Seq<TypedStatementView>, e: FieldElementExpressionView)
    requires
        constant_in_field(e),
    ensures
        folded_field::<VariableReadRemover<T>>(st, e) == (st, e),
    decreases e, 1nat,
{
    match e {
        FieldElementExpressionView::Number(_) => {},
        FieldElementExpressionView::Identifier(_) => {},
        FieldElementExpressionView::Binary(_, a, b) => {
            lemma_field::<T>(st, *a);
            lemma_field::<T>(st, *b);
        },
        FieldElementExpressionView::IfElse(c, a, b) => {
            lemma_boolean::<T>(st, *c);
            lemma_field::<T>(st, *a);
            lemma_field::<T>(st, *b);
        },
        FieldElementExpressionView::FunctionCall(_, args) => {
            lemma_all_expressions::<T>(st, args);
        },
        FieldElementExpressionView::Member(s, _) => {
            lemma_struct::<T>(st, *s);
        },
        FieldElementExpressionView::Select(a, i) => {
            lemma_array::<T>(st, *a);
            lemma_field::<T>(st, *i);
        },
    }
}

proof fn lemma_boolean<T: Field>(st: Seq<TypedStatementView>, e: BooleanExpressionView)
    requires
        constant_in_boolean(e),
    ensures
        folded_boolean::<VariableReadRemover<T>>(st, e) == (st, e),
    decreases e, 1nat,
{
    match e {
        BooleanExpressionView::Value(_) => {},
        BooleanExpressionView::Identifier(_) => {},
        BooleanExpressionView::Compare(_, a, b) => {
            lemma_field::<T>(st, *a);
            lemma_field::<T>(st, *b);
        },
        BooleanExpressionView::Binary(_, a, b) => {
            lemma_boolean::<T>(st, *a);
            lemma_boolean::<T>(st, *b);
        },
        BooleanExpressionView::ArrayEq(a, b) => {
            lemma_array::<T>(st, *a);
            lemma_array::<T>(st, *b);
        },
        BooleanExpressionView::StructEq(a, b) => {
            lemma_struct::<T>(st, *a);
            lemma_struct::<T>(st, *b);
        },
        BooleanExpressionView::UintEq(a, b) => {
            lemma_uint::<T>(st, *a);
            lemma_uint::<T>(st, *b);
        },
        BooleanExpressionView::Not(a) => {
            lemma_boolean::<T>(st, *a);
        },
        BooleanExpressionView::IfElse(c, a, b) => {
            lemma_boolean::<T>(st, *c);
            lemma_boolean::<T>(st, *a);
            lemma_boolean::<T>(st, *b);
        },
        BooleanExpressionView::Member(s, _) => {
            lemma_struct::<T>(st, *s);
        },
        BooleanExpressionView::FunctionCall(_, args) => {
            lemma_all_expressions::<T>(st, args);
        },
        BooleanExpressionView::Select(a, i) => {
            lemma_array::<T>(st, *a);
            lemma_field::<T>(st, *i);
        },
    }
}

proof fn lemma_uint<T: Field>(st: Seq<TypedStatementView>, e: UExpressionView)
    requires
        constant_in_uint(e),
    ensures
        folded_uint::<VariableReadRemover<T>>(st, e) == (st, e),
    decreases e, 2nat,
{
    match e.inner {
        UExpressionInnerView::Value(_) => {},
        UExpressionInnerView::Identifier(_) => {},
        UExpressionInnerView::Binary(_, a, b) => {
            lemma_uint::<T>(st, *a);
            lemma_uint::<T>(st, *b);
        },
        UExpressionInnerView::Shift(_, a, by) => {
            lemma_uint::<T>(st, *a);
            lemma_field::<T>(st, *by);
        },
        UExpressionInnerView::Not(a) => {
            lemma_uint::<T>(st, *a);
        },
        UExpressionInnerView::FunctionCall(_, args) => {
            lemma_all_expressions::<T>(st, args);
        },
        UExpressionInnerView::Select(a, i) => {
            lemma_array::<T>(st, *a);
            lemma_field::<T>(st, *i);
        },
        UExpressionInnerView::IfElse(c, a, b) => {
            lemma_boolean::<T>(st, *c);
            lemma_uint::<T>(st, *a);
            lemma_uint::<T>(st, *b);
        },
        UExpressionInnerView::Member(s, _) => {
            lemma_struct::<T>(st, *s);
        },
    }
}

proof fn lemma_array<T: Field>(st: Seq<TypedStatementView>, e: ArrayExpressionView)
    requires
        constant_in_array(e),
    ensures
        folded_array::<VariableReadRemover<T>>(st, e) == (st, e),
    decreases e, 2nat,
{
    match e.inner {
        ArrayExpressionInnerView::Identifier(_) => {},
        ArrayExpressionInnerView::Value(v) => {
            lemma_all_expressions::<T>(st, v);
        },
        ArrayExpressionInnerView::FunctionCall(_, args) => {
            lemma_all_expressions::<T>(st, args);
        },
        ArrayExpressionInnerView::IfElse(c, a, b) => {
            lemma_boolean::<T>(st, *c);
            lemma_array::<T>(st, *a);
            lemma_array::<T>(st, *b);
        },
        ArrayExpressionInnerView::Member(s, _) => {
            lemma_struct::<T>(st, *s);
        },
        ArrayExpressionInnerView::Select(a, i) => {
            lemma_array::<T>(st, *a);
            lemma_field::<T>(st, *i);
        },
    }
}

proof fn lemma_struct<T: Field>(st: Seq<TypedStatementView>, e: StructExpressionView)
    requires
        constant_in_struct(e),
    ensures
        folded_struct::<VariableReadRemover<T>>(st, e) == (st, e),
    decreases e, 2nat,
{
    match e.inner {
        StructExpressionInnerView::Identifier(_) => {},
        StructExpressionInnerView::Value(v) => {
            lemma_all_expressions::<T>(st, v);
        },
        StructExpressionInnerView::FunctionCall(_, args) => {
            lemma_all_expressions::<T>(st, args);
        },
        StructExpressionInnerView::IfElse(c, a, b) => {
            lemma_boolean::<T>(st, *c);
            lemma_struct::<T>(st, *a);
            lemma_struct::<T>(st, *b);
        },
        StructExpressionInnerView::Member(s, _) => {
            lemma_struct::<T>(st, *s);
        },
        StructExpressionInnerView::Select(a, i) => {
            lemma_array::<T>(st, *a);
            lemma_field::<T>(st, *i);
        },
    }
}

proof fn lemma_assignee<T: Field>(st: Seq<TypedStatementView>, a: TypedAssigneeView)
    requires
        constant_in_assignee(a),
    ensures
        folded_assignee::<VariableReadRemover<T>>(st, a) == (st, a),
    decreases a,
{
    match a {
        TypedAssigneeView::Identifier(_) => {},
        TypedAssigneeView::Select(x, index) => {
            lemma_assignee::<T>(st, *x);
            lemma_field::<T>(st, *index);
        },
        TypedAssigneeView::Member(x, _) => {
            lemma_assignee::<T>(st, *x);
        },
    }
}

proof fn lemma_assignees<T: Field>(
    st: Seq<TypedStatementView>,
    list: Seq<TypedAssigneeView>,
    n: nat,
)
    requires
        forall|k: int| 0 <= k < list.len() ==> constant_in_assignee(#[trigger] list[k]),
        n <= list.len(),
    ensures
        folded_assignees::<VariableReadRemover<T>>(st, list, n) == (st, list.take(n as int)),
    decreases n,
{
    if n == 0 {
        assert(list.take(0) =~= Seq::<TypedAssigneeView>::empty());
    } else {
        lemma_assignees::<T>(st, list, (n - 1) as nat);
        lemma_assignee::<T>(st, list[n - 1]);
        assert(list.take(n as int) =~= list.take(n - 1).push(list[n - 1]));
    }
}

proof fn lemma_statements<T: Field>(list: Seq<TypedStatementView>, n: nat)
    requires
        constant_in_statements(list),
        n <= list.len(),
    ensures
        folded_statements::<VariableReadRemover<T>>(Seq::empty(), list, n) == (
            Seq::<TypedStatementView>::empty(),
            list.take(n as int),
        ),
    decreases list, n,
{
    if n == 0 {
        assert(list.take(0) =~= Seq::<TypedStatementView>::empty());
    } else {
        lemma_statements::<T>(list, (n - 1) as nat);
        lemma_statement::<T>(list[n - 1]);
        assert(list.take(n as int) =~= list.take(n - 1) + seq![list[n - 1]]);
    }
}

proof fn lemma_statement<T: Field>(s: TypedStatementView)
    requires
        constant_in_statement(s),
    ensures
        folded_statement::<VariableReadRemover<T>>(Seq::empty(), s) == (
            Seq::<TypedStatementView>::empty(),
            seq![s],
        ),
    decreases s, 1nat,
{
    let st = Seq::<TypedStatementView>::empty();
    match s {
        TypedStatementView::Return(es) => {
            lemma_all_expressions::<T>(st, es);
        },
        TypedStatementView::Definition(a, e) => {
            lemma_assignee::<T>(st, a);
            lemma_expression::<T>(st, e);
        },
        TypedStatementView::Declaration(_) => {},
        TypedStatementView::Assertion(e) => {
            lemma_boolean::<T>(st, e);
        },
        TypedStatementView::For(_, _, _, body) => {
            lemma_statements::<T>(body, body.len());
            assert(body.take(body.len() as int) =~= body);
        },
        TypedStatementView::MultipleDefinition(assignees, call) => {
            lemma_assignees::<T>(st, assignees, assignees.len());
            assert(assignees.take(assignees.len() as int) =~= assignees);
            lemma_all_expressions::<T>(st, call.arguments);
        },
    }
    assert(statement_parts::<VariableReadRemover<T>>(st, s) == (st, s));
    assert(st + seq![s] =~= seq![s]);
}

proof fn lemma_parameters<T: Field>(list: Seq<ParameterView>, n: nat)
    requires
        n <= list.len(),
    ensures
        folded_parameters::<VariableReadRemover<T>>(Seq::empty(), list, n) == (
            Seq::<TypedStatementView>::empty(),
            list.take(n as int),
        ),
    decreases n,
{
    if n == 0 {
        assert(list.take(0) =~= Seq::<ParameterView>::empty());
    } else {
        lemma_parameters::<T>(list, (n - 1) as nat);
        assert(list.take(n as int) =~= list.take(n - 1).push(list[n - 1]));
    }
}

proof fn lemma_function<T: Field>(f: TypedFunctionView)
    requires
        constant_in_statements(f.statements),
    ensures
        folded_function::<VariableReadRemover<T>>(Seq::empty(), f) == (
            Seq::<TypedStatementView>::empty(),
            f,
        ),
{
    lemma_parameters::<T>(f.arguments, f.arguments.len());
    assert(f.arguments.take(f.arguments.len() as int) =~= f.arguments);
    lemma_statements::<T>(f.statements, f.statements.len());
    assert(f.statements.take(f.statements.len() as int) =~= f.statements);
}

proof fn lemma_symbols<T: Field>(m: TypedModuleView, n: nat)
    requires
        constant_in_module(m),
        n <= m.functions.len(),
    ensures
        folded_symbols::<VariableReadRemover<T>>(Seq::empty(), m.functions, n) == (
            Seq::<TypedStatementView>::empty(),
            m.functions.take(n as int),
        ),
    decreases n,
{
    let list = m.functions;
    if n == 0 {
        assert(list.take(0) =~= Seq::<(FunctionKeyView, TypedFunctionSymbolView)>::empty());
    } else {
        lemma_symbols::<T>(m, (n - 1) as nat);
        match list[n - 1].1 {
            TypedFunctionSymbolView::Here(f) => lemma_function::<T>(f),
            _ => {},
        }
        assert(list.take(n as int) =~= list.take(n - 1).push(list[n - 1]));
    }
}

proof fn lemma_modules<T: Field>(p: TypedProgramView, n: nat)
    requires
        constant_in_program(p),
        n <= p.modules.len(),
    ensures
        folded_modules::<VariableReadRemover<T>>(Seq::empty(), p.modules, n) == (
            Seq::<TypedStatementView>::empty(),
            p.modules.take(n as int),
        ),
    decreases n,
{
    let list = p.modules;
    if n == 0 {
        assert(list.take(0) =~= Seq::<(Seq<char>, TypedModuleView)>::empty());
    } else {
        lemma_modules::<T>(p, (n - 1) as nat);
        let m = list[n - 1].1;
        lemma_symbols::<T>(m, m.functions.len());
        assert(m.functions.take(m.functions.len() as int) =~= m.functions);
        assert(list.take(n as int) =~= list.take(n - 1).push(list[n - 1]));
    }
}

/// The pass leaves a program that reads arrays at constants only as it
/// is.
pub proof fn law_constant_reads<T: Field>(p: TypedProgramView)
    requires
        constant_in_program(p),
    ensures
        folded_program::<VariableReadRemover<T>>(Seq::empty(), p).1 == p,
{
    lemma_modules::<T>(p, p.modules.len());
    assert(p.modules.take(p.modules.len() as int) =~= p.modules);
}

} // verus!
