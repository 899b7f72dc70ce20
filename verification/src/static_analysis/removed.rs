//! What the pass leaves behind: a program that reads arrays at constants
//! only.
//!
//! The pass can take a read at an index that is no constant out when the
//! array has elements to select among and, where an unsigned integer, an
//! array or a struct is read, when the array holds such.

use vstd::prelude::*;
use crate::field::Field;
use crate::static_analysis::constant_reads::{
    constant_in_array, constant_in_assignee, constant_in_boolean, constant_in_expression,
    constant_in_expressions, constant_in_field, constant_in_module, constant_in_program,
    constant_in_statement, constant_in_statements, constant_in_struct, constant_in_uint,
};
use crate::semantics::typing::number;
use crate::static_analysis::variable_read_remover::{
    VariableReadRemover, index_in_range, index_is, selection,
};
use crate::typed_absy::expression::{
    ArrayExpression, ArrayExpressionInnerView, ArrayExpressionView, BooleanExpression,
    BooleanExpressionView, FieldElementExpression, FieldElementExpressionView, StructExpression,
    StructExpressionInnerView, StructExpressionView, TypedExpressionView, UExpression,
    UExpressionInnerView, UExpressionView,
};
use crate::typed_absy::folder::{
    FolderSpec, folded_array, folded_assignee, folded_assignees, folded_boolean, folded_expression,
    folded_expressions, folded_field, folded_function, folded_modules, folded_parameters,
    folded_program, folded_statement, folded_statements, folded_struct, folded_symbols,
    folded_uint,
};
use crate::typed_absy::parameter::ParameterView;
use crate::typed_absy::typed::Select;
use crate::typed_absy::program::{
    TypedAssigneeView, TypedFunctionSymbolView, TypedFunctionView, TypedModuleView,
    TypedProgramView, TypedStatementView,
};

verus! {

/// Whether the pass can take every read out of each expression of the list.
pub open spec fn readable_expressions(list: Seq<TypedExpressionView>) -> bool
    decreases list, 0nat,
{
    forall|k: int| 0 <= k < list.len() ==> readable_expression(#[trigger] list[k])
}

/// Whether the pass can take every read out of the expression.
pub open spec fn readable_expression(e: TypedExpressionView) -> bool
    decreases e, 2nat,
{
    match e {
        TypedExpressionView::FieldElement(x) => readable_field(x),
        TypedExpressionView::Boolean(x) => readable_boolean(x),
        TypedExpressionView::Uint(x) => readable_uint(x),
        TypedExpressionView::Array(x) => readable_array(x),
        TypedExpressionView::Struct(x) => readable_struct(x),
    }
}

/// Whether the pass can take every read out of the field expression.
pub open spec fn readable_field(e: FieldElementExpressionView) -> bool
    decreases e, 1nat,
{
    match e {
        FieldElementExpressionView::Number(_) => true,
        FieldElementExpressionView::Identifier(_) => true,
        FieldElementExpressionView::Binary(_, a, b) => readable_field(*a) && readable_field(*b),
        FieldElementExpressionView::IfElse(c, a, b) => readable_boolean(*c) && readable_field(
            *a,
        ) && readable_field(*b),
        FieldElementExpressionView::FunctionCall(_, args) => readable_expressions(args),
        FieldElementExpressionView::Member(s, _) => readable_struct(*s),
        FieldElementExpressionView::Select(a, i) => (*i is Number || a.size > 0) && readable_array(*a)
            && readable_field(*i),
    }
}

/// Whether the pass can take every read out of the boolean expression.
pub open spec fn readable_boolean(e: BooleanExpressionView) -> bool
    decreases e, 1nat,
{
    match e {
        BooleanExpressionView::Value(_) => true,
        BooleanExpressionView::Identifier(_) => true,
        BooleanExpressionView::Compare(_, a, b) => readable_field(*a) && readable_field(*b),
        BooleanExpressionView::Binary(_, a, b) => readable_boolean(*a) && readable_boolean(*b),
        BooleanExpressionView::ArrayEq(a, b) => readable_array(*a) && readable_array(*b),
        BooleanExpressionView::StructEq(a, b) => readable_struct(*a) && readable_struct(*b),
        BooleanExpressionView::UintEq(a, b) => readable_uint(*a) && readable_uint(*b),
        BooleanExpressionView::Not(a) => readable_boolean(*a),
        BooleanExpressionView::IfElse(c, a, b) => readable_boolean(*c) && readable_boolean(
            *a,
        ) && readable_boolean(*b),
        BooleanExpressionView::Member(s, _) => readable_struct(*s),
        BooleanExpressionView::FunctionCall(_, args) => readable_expressions(args),
        BooleanExpressionView::Select(a, i) => (*i is Number || a.size > 0) && readable_array(*a)
            && readable_field(*i),
    }
}

/// Whether the pass can take every read out of the unsigned integer expression.
pub open spec fn readable_uint(e: UExpressionView) -> bool
    decreases e, 2nat,
{
    readable_uint_inner(e.inner)
}

pub open spec fn readable_uint_inner(e: UExpressionInnerView) -> bool
    decreases e, 0nat,
{
    match e {
        UExpressionInnerView::Value(_) => true,
        UExpressionInnerView::Identifier(_) => true,
        UExpressionInnerView::Binary(_, a, b) => readable_uint(*a) && readable_uint(*b),
        UExpressionInnerView::Shift(_, a, by) => readable_uint(*a) && readable_field(*by),
        UExpressionInnerView::Not(a) => readable_uint(*a),
        UExpressionInnerView::FunctionCall(_, args) => readable_expressions(args),
        UExpressionInnerView::Select(a, i) => (*i is Number || (a.size > 0 && a.ty is Uint))
            && readable_array(*a) && readable_field(*i),
        UExpressionInnerView::IfElse(c, a, b) => readable_boolean(*c) && readable_uint(*a)
            && readable_uint(*b),
        UExpressionInnerView::Member(s, _) => readable_struct(*s),
    }
}

/// Whether the pass can take every read out of the array expression.
pub open spec fn readable_array(e: ArrayExpressionView) -> bool
    decreases e, 2nat,
{
    readable_array_inner(e.inner)
}

pub open spec fn readable_array_inner(e: ArrayExpressionInnerView) -> bool
    decreases e, 0nat,
{
    match e {
        ArrayExpressionInnerView::Identifier(_) => true,
        ArrayExpressionInnerView::Value(v) => readable_expressions(v),
        ArrayExpressionInnerView::FunctionCall(_, args) => readable_expressions(args),
        ArrayExpressionInnerView::IfElse(c, a, b) => readable_boolean(*c) && readable_array(*a)
            && readable_array(*b),
        ArrayExpressionInnerView::Member(s, _) => readable_struct(*s),
        ArrayExpressionInnerView::Select(a, i) => (*i is Number || (a.size > 0 && a.ty is Array))
            && readable_array(*a) && readable_field(*i),
    }
}

/// Whether the pass can take every read out of the struct expression.
pub open spec fn readable_struct(e: StructExpressionView) -> bool
    decreases e, 2nat,
{
    readable_struct_inner(e.inner)
}

pub open spec fn readable_struct_inner(e: StructExpressionInnerView) -> bool
    decreases e, 0nat,
{
    match e {
        StructExpressionInnerView::Identifier(_) => true,
        StructExpressionInnerView::Value(v) => readable_expressions(v),
        StructExpressionInnerView::FunctionCall(_, args) => readable_expressions(args),
        StructExpressionInnerView::IfElse(c, a, b) => readable_boolean(*c) && readable_struct(
            *a,
        ) && readable_struct(*b),
        StructExpressionInnerView::Member(s, _) => readable_struct(*s),
        StructExpressionInnerView::Select(a, i) => (*i is Number || (a.size > 0 && a.ty is Struct))
            && readable_array(*a) && readable_field(*i),
    }
}

/// Whether the pass can take every read out of the indices of the assignee.
pub open spec fn readable_assignee(a: TypedAssigneeView) -> bool
    decreases a,
{
    match a {
        TypedAssigneeView::Identifier(_) => true,
        TypedAssigneeView::Select(x, index) => readable_assignee(*x) && readable_field(*index),
        TypedAssigneeView::Member(x, _) => readable_assignee(*x),
    }
}

/// Whether the pass can take every read out of each statement of the list.
pub open spec fn readable_statements(list: Seq<TypedStatementView>) -> bool
    decreases list, 0nat,
{
    forall|k: int| 0 <= k < list.len() ==> readable_statement(#[trigger] list[k])
}

/// Whether the pass can take every read out of the statement. The bounds
/// of a loop stay as they are, so they must read at constants already.
pub open spec fn readable_statement(s: TypedStatementView) -> bool
    decreases s, 1nat,
{
    match s {
        TypedStatementView::Return(es) => readable_expressions(es),
        TypedStatementView::Definition(a, e) => readable_assignee(a) && readable_expression(e),
        TypedStatementView::Declaration(_) => true,
        TypedStatementView::Assertion(e) => readable_boolean(e),
        TypedStatementView::For(_, from, to, body) => constant_in_field(from) && constant_in_field(
            to,
        ) && readable_statements(body),
        TypedStatementView::MultipleDefinition(assignees, call) => {
            &&& forall|k: int|
                0 <= k < assignees.len() ==> readable_assignee(#[trigger] assignees[k])
            &&& readable_expressions(call.arguments)
        },
    }
}

/// Whether the pass can take every read out of the functions of the module.
pub open spec fn readable_module(m: TypedModuleView) -> bool {
    forall|k: int|
        0 <= k < m.functions.len() ==> match (#[trigger] m.functions[k]).1 {
            TypedFunctionSymbolView::Here(f) => readable_statements(f.statements),
            _ => true,
        }
}

/// Whether the pass can take every read out of the program.
pub open spec fn readable_program(p: TypedProgramView) -> bool {
    forall|k: int| 0 <= k < p.modules.len() ==> readable_module((#[trigger] p.modules[k]).1)
}

/// The assertion that an index is an index of an array reads at constants
/// where the index does.
proof fn lemma_in_range<T: Field>(i: FieldElementExpressionView, n: nat)
    requires
        constant_in_field(i),
    ensures
        constant_in_boolean(index_in_range::<T>(i, n)),
    decreases n,
{
    assert(constant_in_field(number::<T>(0)));
    assert(constant_in_boolean(index_is::<T>(i, 0)));
    if n > 1 {
        lemma_in_range::<T>(i, (n - 1) as nat);
        assert(constant_in_field(number::<T>((n - 1) as nat)));
        assert(constant_in_boolean(index_is::<T>(i, (n - 1) as nat)));
    }
}

proof fn lemma_selection_field<T: Field>(
    a: ArrayExpressionView,
    i: FieldElementExpressionView,
    k: nat,
    n: nat,
)
    requires
        constant_in_array(a),
        constant_in_field(i),
    ensures
        constant_in_field(selection::<T, FieldElementExpression<T>>(a, i, k, n)),
    decreases n - k,
{
    assert(constant_in_field(number::<T>(k)));
    assert(constant_in_field(number::<T>((n - 1) as nat)));
    assert(constant_in_field(<FieldElementExpression<T> as Select<T>>::select_view(a, number::<T>(k))));
    assert(constant_in_field(<FieldElementExpression<T> as Select<T>>::select_view(a, number::<T>((n - 1) as nat))));
    assert(constant_in_boolean(index_is::<T>(i, k)));
    if k + 1 < n {
        lemma_selection_field::<T>(a, i, k + 1, n);
    }
}

proof fn lemma_selection_boolean<T: Field>(
    a: ArrayExpressionView,
    i: FieldElementExpressionView,
    k: nat,
    n: nat,
)
    requires
        constant_in_array(a),
        constant_in_field(i),
    ensures
        constant_in_boolean(selection::<T, BooleanExpression<T>>(a, i, k, n)),
    decreases n - k,
{
    assert(constant_in_field(number::<T>(k)));
    assert(constant_in_field(number::<T>((n - 1) as nat)));
    assert(constant_in_boolean(<BooleanExpression<T> as Select<T>>::select_view(a, number::<T>(k))));
    assert(constant_in_boolean(<BooleanExpression<T> as Select<T>>::select_view(a, number::<T>((n - 1) as nat))));
    assert(constant_in_boolean(index_is::<T>(i, k)));
    if k + 1 < n {
        lemma_selection_boolean::<T>(a, i, k + 1, n);
    }
}

proof fn lemma_selection_uint<T: Field>(
    a: ArrayExpressionView,
    i: FieldElementExpressionView,
    k: nat,
    n: nat,
)
    requires
        constant_in_array(a),
        constant_in_field(i),
    ensures
        constant_in_uint(selection::<T, UExpression<T>>(a, i, k, n)),
    decreases n - k,
{
    assert(constant_in_field(number::<T>(k)));
    assert(constant_in_field(number::<T>((n - 1) as nat)));
    assert(constant_in_uint(<UExpression<T> as Select<T>>::select_view(a, number::<T>(k))));
    assert(constant_in_uint(<UExpression<T> as Select<T>>::select_view(a, number::<T>((n - 1) as nat))));
    assert(constant_in_boolean(index_is::<T>(i, k)));
    if k + 1 < n {
        lemma_selection_uint::<T>(a, i, k + 1, n);
    }
}

proof fn lemma_selection_array<T: Field>(
    a: ArrayExpressionView,
    i: FieldElementExpressionView,
    k: nat,
    n: nat,
)
    requires
        constant_in_array(a),
        constant_in_field(i),
    ensures
        constant_in_array(selection::<T, ArrayExpression<T>>(a, i, k, n)),
    decreases n - k,
{
    assert(constant_in_field(number::<T>(k)));
    assert(constant_in_field(number::<T>((n - 1) as nat)));
    assert(constant_in_array(<ArrayExpression<T> as Select<T>>::select_view(a, number::<T>(k))));
    assert(constant_in_array(<ArrayExpression<T> as Select<T>>::select_view(a, number::<T>((n - 1) as nat))));
    assert(constant_in_boolean(index_is::<T>(i, k)));
    if k + 1 < n {
        lemma_selection_array::<T>(a, i, k + 1, n);
    }
}

proof fn lemma_selection_struct<T: Field>(
    a: ArrayExpressionView,
    i: FieldElementExpressionView,
    k: nat,
    n: nat,
)
    requires
        constant_in_array(a),
        constant_in_field(i),
    ensures
        constant_in_struct(selection::<T, StructExpression<T>>(a, i, k, n)),
    decreases n - k,
{
    assert(constant_in_field(number::<T>(k)));
    assert(constant_in_field(number::<T>((n - 1) as nat)));
    assert(constant_in_struct(<StructExpression<T> as Select<T>>::select_view(a, number::<T>(k))));
    assert(constant_in_struct(<StructExpression<T> as Select<T>>::select_view(a, number::<T>((n - 1) as nat))));
    assert(constant_in_boolean(index_is::<T>(i, k)));
    if k + 1 < n {
        lemma_selection_struct::<T>(a, i, k + 1, n);
    }
}

/// One more statement that reads at constants.
proof fn lemma_pushed(st: Seq<TypedStatementView>, s: TypedStatementView)
    requires
        constant_in_statements(st),
        constant_in_statement(s),
    ensures
        constant_in_statements(st.push(s)),
        constant_in_statements(st + seq![s]),
{
    assert forall|k: int| 0 <= k < st.push(s).len() implies constant_in_statement(
        #[trigger] st.push(s)[k],
    ) by {
        if k < st.len() {
            assert(st.push(s)[k] == st[k]);
        }
    }
    assert(st + seq![s] =~= st.push(s));
}

/// Two lists of statements that read at constants, one after the other.
proof fn lemma_joined(a: Seq<TypedStatementView>, b: Seq<TypedStatementView>)
    requires
        constant_in_statements(a),
        constant_in_statements(b),
    ensures
        constant_in_statements(a + b),
{
    assert forall|k: int| 0 <= k < (a + b).len() implies constant_in_statement(
        #[trigger] (a + b)[k],
    ) by {
        if k < a.len() {
            assert((a + b)[k] == a[k]);
        } else {
            assert((a + b)[k] == b[k - a.len()]);
        }
    }
}

proof fn lemma_expressions<T: Field>(
    st: Seq<TypedStatementView>,
    list: Seq<TypedExpressionView>,
    n: nat,
)
    requires
        readable_expressions(list),
        constant_in_statements(st),
        n <= list.len(),
    ensures
        constant_in_statements(folded_expressions::<VariableReadRemover<T>>(st, list, n).0),
        constant_in_expressions(folded_expressions::<VariableReadRemover<T>>(st, list, n).1),
        folded_expressions::<VariableReadRemover<T>>(st, list, n).1.len() == n,
    decreases list, n,
{
    if n > 0 {
        lemma_expressions::<T>(st, list, (n - 1) as nat);
        let before = folded_expressions::<VariableReadRemover<T>>(st, list, (n - 1) as nat);
        lemma_expression::<T>(before.0, list[n - 1]);
        let e = folded_expression::<VariableReadRemover<T>>(before.0, list[n - 1]);
        assert forall|k: int| 0 <= k < before.1.push(e.1).len() implies constant_in_expression(
            #[trigger] before.1.push(e.1)[k],
        ) by {
            if k < before.1.len() {
                assert(before.1.push(e.1)[k] == before.1[k]);
            }
        }
    }
}

proof fn lemma_expression<T: Field>(st: Seq<TypedStatementView>, e: TypedExpressionView)
    requires
        readable_expression(e),
        constant_in_statements(st),
    ensures
        constant_in_statements(folded_expression::<VariableReadRemover<T>>(st, e).0),
        constant_in_expression(folded_expression::<VariableReadRemover<T>>(st, e).1),
    decreases e, 2nat,
{
    match e {
        TypedExpressionView::FieldElement(x) => lemma_field::<T>(st, x),
        TypedExpressionView::Boolean(x) => lemma_boolean::<T>(st, x),
        TypedExpressionView::Uint(x) => lemma_uint::<T>(st, x),
        TypedExpressionView::Array(x) => lemma_array::<T>(st, x),
        TypedExpressionView::Struct(x) => lemma_struct::<T>(st, x),
    }
}

proof fn lemma_field<T: Field>(st: Seq<TypedStatementView>, e: FieldElementExpressionView)
    requires
        readable_field(e),
        constant_in_statements(st),
    ensures
        constant_in_statements(folded_field::<VariableReadRemover<T>>(st, e).0),
        constant_in_field(folded_field::<VariableReadRemover<T>>(st, e).1),
        e is Number ==> folded_field::<VariableReadRemover<T>>(st, e).1 is Number,
    decreases e, 1nat,
{
    match e {
        FieldElementExpressionView::Number(_) => {},
        FieldElementExpressionView::Identifier(_) => {},
        FieldElementExpressionView::Binary(_, a, b) => {
            lemma_field::<T>(st, *a);
            let s1 = folded_field::<VariableReadRemover<T>>(st, *a).0;
            lemma_field::<T>(s1, *b);
        },
        FieldElementExpressionView::IfElse(c, a, b) => {
            lemma_boolean::<T>(st, *c);
            let s1 = folded_boolean::<VariableReadRemover<T>>(st, *c).0;
            lemma_field::<T>(s1, *a);
            let s2 = folded_field::<VariableReadRemover<T>>(s1, *a).0;
            lemma_field::<T>(s2, *b);
        },
        FieldElementExpressionView::FunctionCall(_, args) => {
            lemma_expressions::<T>(st, args, args.len());
        },
        FieldElementExpressionView::Member(s, _) => {
            lemma_struct::<T>(st, *s);
        },
        FieldElementExpressionView::Select(a, i) => {
            lemma_array::<T>(st, *a);
            let s1 = folded_array::<VariableReadRemover<T>>(st, *a).0;
            lemma_field::<T>(s1, *i);
            let x = folded_array::<VariableReadRemover<T>>(st, *a);
            let y = folded_field::<VariableReadRemover<T>>(x.0, *i);
            if !(y.1 is Number) {
                lemma_in_range::<T>(y.1, x.1.size);
                lemma_pushed(
                    y.0,
                    TypedStatementView::Assertion(index_in_range::<T>(y.1, x.1.size)),
                );
                lemma_selection_field::<T>(x.1, y.1, 0, x.1.size);
            }
        },
    }
}

proof fn lemma_boolean<T: Field>(st: Seq<TypedStatementView>, e: BooleanExpressionView)
    requires
        readable_boolean(e),
        constant_in_statements(st),
    ensures
        constant_in_statements(folded_boolean::<VariableReadRemover<T>>(st, e).0),
        constant_in_boolean(folded_boolean::<VariableReadRemover<T>>(st, e).1),
    decreases e, 1nat,
{
    match e {
        BooleanExpressionView::Value(_) => {},
        BooleanExpressionView::Identifier(_) => {},
        BooleanExpressionView::Compare(_, a, b) => {
            lemma_field::<T>(st, *a);
            let s1 = folded_field::<VariableReadRemover<T>>(st, *a).0;
            lemma_field::<T>(s1, *b);
        },
        BooleanExpressionView::Binary(_, a, b) => {
            lemma_boolean::<T>(st, *a);
            let s1 = folded_boolean::<VariableReadRemover<T>>(st, *a).0;
            lemma_boolean::<T>(s1, *b);
        },
        BooleanExpressionView::ArrayEq(a, b) => {
            lemma_array::<T>(st, *a);
            let s1 = folded_array::<VariableReadRemover<T>>(st, *a).0;
            lemma_array::<T>(s1, *b);
        },
        BooleanExpressionView::StructEq(a, b) => {
            lemma_struct::<T>(st, *a);
            let s1 = folded_struct::<VariableReadRemover<T>>(st, *a).0;
            lemma_struct::<T>(s1, *b);
        },
        BooleanExpressionView::UintEq(a, b) => {
            lemma_uint::<T>(st, *a);
            let s1 = folded_uint::<VariableReadRemover<T>>(st, *a).0;
            lemma_uint::<T>(s1, *b);
        },
        BooleanExpressionView::Not(a) => {
            lemma_boolean::<T>(st, *a);
        },
        BooleanExpressionView::IfElse(c, a, b) => {
            lemma_boolean::<T>(st, *c);
            let s1 = folded_boolean::<VariableReadRemover<T>>(st, *c).0;
            lemma_boolean::<T>(s1, *a);
            let s2 = folded_boolean::<VariableReadRemover<T>>(s1, *a).0;
            lemma_boolean::<T>(s2, *b);
        },
        BooleanExpressionView::Member(s, _) => {
            lemma_struct::<T>(st, *s);
        },
        BooleanExpressionView::FunctionCall(_, args) => {
            lemma_expressions::<T>(st, args, args.len());
        },
        BooleanExpressionView::Select(a, i) => {
            lemma_array::<T>(st, *a);
            let s1 = folded_array::<VariableReadRemover<T>>(st, *a).0;
            lemma_field::<T>(s1, *i);
            let x = folded_array::<VariableReadRemover<T>>(st, *a);
            let y = folded_field::<VariableReadRemover<T>>(x.0, *i);
            if !(y.1 is Number) {
                lemma_in_range::<T>(y.1, x.1.size);
                lemma_pushed(
                    y.0,
                    TypedStatementView::Assertion(index_in_range::<T>(y.1, x.1.size)),
                );
                lemma_selection_boolean::<T>(x.1, y.1, 0, x.1.size);
            }
        },
    }
}

proof fn lemma_uint<T: Field>(st: Seq<TypedStatementView>, e: UExpressionView)
    requires
        readable_uint(e),
        constant_in_statements(st),
    ensures
        constant_in_statements(folded_uint::<VariableReadRemover<T>>(st, e).0),
        constant_in_uint(folded_uint::<VariableReadRemover<T>>(st, e).1),
    decreases e, 2nat,
{
    match e.inner {
        UExpressionInnerView::Value(_) => {},
        UExpressionInnerView::Identifier(_) => {},
        UExpressionInnerView::Binary(_, a, b) => {
            lemma_uint::<T>(st, *a);
            let s1 = folded_uint::<VariableReadRemover<T>>(st, *a).0;
            lemma_uint::<T>(s1, *b);
        },
        UExpressionInnerView::Shift(_, a, by) => {
            lemma_uint::<T>(st, *a);
            let s1 = folded_uint::<VariableReadRemover<T>>(st, *a).0;
            lemma_field::<T>(s1, *by);
        },
        UExpressionInnerView::Not(a) => {
            lemma_uint::<T>(st, *a);
        },
        UExpressionInnerView::FunctionCall(_, args) => {
            lemma_expressions::<T>(st, args, args.len());
        },
        UExpressionInnerView::Select(a, i) => {
            lemma_array::<T>(st, *a);
            let s1 = folded_array::<VariableReadRemover<T>>(st, *a).0;
            lemma_field::<T>(s1, *i);
            let x = folded_array::<VariableReadRemover<T>>(st, *a);
            let y = folded_field::<VariableReadRemover<T>>(x.0, *i);
            if !(y.1 is Number) {
                lemma_in_range::<T>(y.1, x.1.size);
                lemma_pushed(
                    y.0,
                    TypedStatementView::Assertion(index_in_range::<T>(y.1, x.1.size)),
                );
                lemma_selection_uint::<T>(x.1, y.1, 0, x.1.size);
            }
        },
        UExpressionInnerView::IfElse(c, a, b) => {
            lemma_boolean::<T>(st, *c);
            let s1 = folded_boolean::<VariableReadRemover<T>>(st, *c).0;
            lemma_uint::<T>(s1, *a);
            let s2 = folded_uint::<VariableReadRemover<T>>(s1, *a).0;
            lemma_uint::<T>(s2, *b);
        },
        UExpressionInnerView::Member(s, _) => {
            lemma_struct::<T>(st, *s);
        },
    }
}

proof fn lemma_array<T: Field>(st: Seq<TypedStatementView>, e: ArrayExpressionView)
    requires
        readable_array(e),
        constant_in_statements(st),
    ensures
        constant_in_statements(folded_array::<VariableReadRemover<T>>(st, e).0),
        constant_in_array(folded_array::<VariableReadRemover<T>>(st, e).1),
        folded_array::<VariableReadRemover<T>>(st, e).1.size == e.size,
        folded_array::<VariableReadRemover<T>>(st, e).1.ty == e.ty,
    decreases e, 2nat,
{
    match e.inner {
        ArrayExpressionInnerView::Identifier(_) => {},
        ArrayExpressionInnerView::Value(v) => {
            lemma_expressions::<T>(st, v, v.len());
        },
        ArrayExpressionInnerView::FunctionCall(_, args) => {
            lemma_expressions::<T>(st, args, args.len());
        },
        ArrayExpressionInnerView::IfElse(c, a, b) => {
            lemma_boolean::<T>(st, *c);
            let s1 = folded_boolean::<VariableReadRemover<T>>(st, *c).0;
            lemma_array::<T>(s1, *a);
            let s2 = folded_array::<VariableReadRemover<T>>(s1, *a).0;
            lemma_array::<T>(s2, *b);
        },
        ArrayExpressionInnerView::Member(s, _) => {
            lemma_struct::<T>(st, *s);
        },
        ArrayExpressionInnerView::Select(a, i) => {
            lemma_array::<T>(st, *a);
            let s1 = folded_array::<VariableReadRemover<T>>(st, *a).0;
            lemma_field::<T>(s1, *i);
            let x = folded_array::<VariableReadRemover<T>>(st, *a);
            let y = folded_field::<VariableReadRemover<T>>(x.0, *i);
            if !(y.1 is Number) {
                lemma_in_range::<T>(y.1, x.1.size);
                lemma_pushed(
                    y.0,
                    TypedStatementView::Assertion(index_in_range::<T>(y.1, x.1.size)),
                );
                lemma_selection_array::<T>(x.1, y.1, 0, x.1.size);
            }
        },
    }
}

proof fn lemma_struct<T: Field>(st: Seq<TypedStatementView>, e: StructExpressionView)
    requires
        readable_struct(e),
        constant_in_statements(st),
    ensures
        constant_in_statements(folded_struct::<VariableReadRemover<T>>(st, e).0),
        constant_in_struct(folded_struct::<VariableReadRemover<T>>(st, e).1),
    decreases e, 2nat,
{
    match e.inner {
        StructExpressionInnerView::Identifier(_) => {},
        StructExpressionInnerView::Value(v) => {
            lemma_expressions::<T>(st, v, v.len());
        },
        StructExpressionInnerView::FunctionCall(_, args) => {
            lemma_expressions::<T>(st, args, args.len());
        },
        StructExpressionInnerView::IfElse(c, a, b) => {
            lemma_boolean::<T>(st, *c);
            let s1 = folded_boolean::<VariableReadRemover<T>>(st, *c).0;
            lemma_struct::<T>(s1, *a);
            let s2 = folded_struct::<VariableReadRemover<T>>(s1, *a).0;
            lemma_struct::<T>(s2, *b);
        },
        StructExpressionInnerView::Member(s, _) => {
            lemma_struct::<T>(st, *s);
        },
        StructExpressionInnerView::Select(a, i) => {
            lemma_array::<T>(st, *a);
            let s1 = folded_array::<VariableReadRemover<T>>(st, *a).0;
            lemma_field::<T>(s1, *i);
            let x = folded_array::<VariableReadRemover<T>>(st, *a);
            let y = folded_field::<VariableReadRemover<T>>(x.0, *i);
            if !(y.1 is Number) {
                lemma_in_range::<T>(y.1, x.1.size);
                lemma_pushed(
                    y.0,
                    TypedStatementView::Assertion(index_in_range::<T>(y.1, x.1.size)),
                );
                lemma_selection_struct::<T>(x.1, y.1, 0, x.1.size);
            }
        },
    }
}

proof fn lemma_assignee<T: Field>(st: Seq<TypedStatementView>, a: TypedAssigneeView)
    requires
        readable_assignee(a),
        constant_in_statements(st),
    ensures
        constant_in_statements(folded_assignee::<VariableReadRemover<T>>(st, a).0),
        constant_in_assignee(folded_assignee::<VariableReadRemover<T>>(st, a).1),
    decreases a,
{
    match a {
        TypedAssigneeView::Identifier(_) => {},
        TypedAssigneeView::Select(x, index) => {
            lemma_assignee::<T>(st, *x);
            lemma_field::<T>(folded_assignee::<VariableReadRemover<T>>(st, *x).0, *index);
        },
        TypedAssigneeView::Member(x, _) => {
            lemma_assignee::<T>(st, *x);
        },
    }
}

proof fn lemma_assignees<T: Field>(
    st: Seq<TypedStatementView>,
    list: Seq<TypedAssigneeView>,
    n: nat,
)
    requires
        forall|k: int| 0 <= k < list.len() ==> readable_assignee(#[trigger] list[k]),
        constant_in_statements(st),
        n <= list.len(),
    ensures
        constant_in_statements(folded_assignees::<VariableReadRemover<T>>(st, list, n).0),
        forall|k: int|
            0 <= k < n ==> constant_in_assignee(
                #[trigger] folded_assignees::<VariableReadRemover<T>>(st, list, n).1[k],
            ),
        folded_assignees::<VariableReadRemover<T>>(st, list, n).1.len() == n,
    decreases n,
{
    if n > 0 {
        lemma_assignees::<T>(st, list, (n - 1) as nat);
        let before = folded_assignees::<VariableReadRemover<T>>(st, list, (n - 1) as nat);
        lemma_assignee::<T>(before.0, list[n - 1]);
        let a = folded_assignee::<VariableReadRemover<T>>(before.0, list[n - 1]);
        assert forall|k: int| 0 <= k < n implies constant_in_assignee(
            #[trigger] before.1.push(a.1)[k],
        ) by {
            if k < n - 1 {
                assert(before.1.push(a.1)[k] == before.1[k]);
            }
        }
    }
}

proof fn lemma_statements<T: Field>(
    st: Seq<TypedStatementView>,
    list: Seq<TypedStatementView>,
    n: nat,
)
    requires
        readable_statements(list),
        constant_in_statements(st),
        n <= list.len(),
    ensures
        constant_in_statements(folded_statements::<VariableReadRemover<T>>(st, list, n).0),
        constant_in_statements(folded_statements::<VariableReadRemover<T>>(st, list, n).1),
    decreases list, n,
{
    if n > 0 {
        lemma_statements::<T>(st, list, (n - 1) as nat);
        let before = folded_statements::<VariableReadRemover<T>>(st, list, (n - 1) as nat);
        lemma_statement::<T>(before.0, list[n - 1]);
        lemma_joined(
            before.1,
            folded_statement::<VariableReadRemover<T>>(before.0, list[n - 1]).1,
        );
    }
}

proof fn lemma_statement<T: Field>(st: Seq<TypedStatementView>, s: TypedStatementView)
    requires
        readable_statement(s),
        constant_in_statements(st),
    ensures
        constant_in_statements(folded_statement::<VariableReadRemover<T>>(st, s).0),
        constant_in_statements(folded_statement::<VariableReadRemover<T>>(st, s).1),
    decreases s, 1nat,
{
    match s {
        TypedStatementView::Return(es) => {
            lemma_expressions::<T>(st, es, es.len());
        },
        TypedStatementView::Definition(a, e) => {
            lemma_assignee::<T>(st, a);
            lemma_expression::<T>(folded_assignee::<VariableReadRemover<T>>(st, a).0, e);
        },
        TypedStatementView::Declaration(_) => {},
        TypedStatementView::Assertion(e) => {
            lemma_boolean::<T>(st, e);
        },
        TypedStatementView::For(_, _, _, body) => {
            lemma_statements::<T>(st, body, body.len());
        },
        TypedStatementView::MultipleDefinition(assignees, call) => {
            lemma_assignees::<T>(st, assignees, assignees.len());
            lemma_expressions::<T>(
                folded_assignees::<VariableReadRemover<T>>(st, assignees, assignees.len()).0,
                call.arguments,
                call.arguments.len(),
            );
        },
    }
    let parts = crate::typed_absy::folder::statement_parts::<VariableReadRemover<T>>(st, s);
    assert(constant_in_statements(parts.0));
    assert(constant_in_statement(parts.1));
    lemma_pushed(parts.0, parts.1);
}

proof fn lemma_parameters<T: Field>(list: Seq<ParameterView>, n: nat)
    requires
        n <= list.len(),
    ensures
        folded_parameters::<VariableReadRemover<T>>(Seq::empty(), list, n) == (
            Seq::<TypedStatementView>::empty(),
            list.take(n as int),
        ),
    decreases n,
{
    if n == 0 {
        assert(list.take(0) =~= Seq::<ParameterView>::empty());
    } else {
        lemma_parameters::<T>(list, (n - 1) as nat);
        assert(list.take(n as int) =~= list.take(n - 1).push(list[n - 1]));
    }
}

proof fn lemma_function<T: Field>(f: TypedFunctionView)
    requires
        readable_statements(f.statements),
    ensures
        folded_function::<VariableReadRemover<T>>(Seq::empty(), f).0 == Seq::<
            TypedStatementView,
        >::empty(),
        constant_in_statements(
            folded_function::<VariableReadRemover<T>>(Seq::empty(), f).1.statements,
        ),
        folded_function::<VariableReadRemover<T>>(Seq::empty(), f).1.signature == f.signature,
        folded_function::<VariableReadRemover<T>>(Seq::empty(), f).1.arguments == f.arguments,
{
    lemma_parameters::<T>(f.arguments, f.arguments.len());
    assert(f.arguments.take(f.arguments.len() as int) =~= f.arguments);
    lemma_statements::<T>(Seq::empty(), f.statements, f.statements.len());
    lemma_emptied::<T>(Seq::empty(), f.statements, f.statements.len());
}

/// After a statement nothing is pending.
proof fn lemma_emptied<T: Field>(
    st: Seq<TypedStatementView>,
    list: Seq<TypedStatementView>,
    n: nat,
)
    requires
        n <= list.len(),
        st.len() == 0,
    ensures
        folded_statements::<VariableReadRemover<T>>(st, list, n).0.len() == 0,
    decreases n,
{
    if n > 0 {
        lemma_emptied::<T>(st, list, (n - 1) as nat);
        let before = folded_statements::<VariableReadRemover<T>>(st, list, (n - 1) as nat);
        let parts = crate::typed_absy::folder::statement_parts::<VariableReadRemover<T>>(
            before.0,
            list[n - 1],
        );
        assert(folded_statement::<VariableReadRemover<T>>(before.0, list[n - 1]).0
            == VariableReadRemover::<T>::statement_hook(parts.0, seq![parts.1]).0);
    }
}

/// Whether two function symbols are the same but for the statements of a
/// function of the module.
pub open spec fn same_head(a: TypedFunctionSymbolView, b: TypedFunctionSymbolView) -> bool {
    match (a, b) {
        (TypedFunctionSymbolView::Here(x), TypedFunctionSymbolView::Here(y)) => x.arguments
            == y.arguments && x.signature == y.signature,
        (TypedFunctionSymbolView::Here(_), _) => false,
        (_, TypedFunctionSymbolView::Here(_)) => false,
        _ => a == b,
    }
}

/// Whether two modules have the same symbols under the same keys, but for
/// the statements of their functions.
pub open spec fn same_heads_in_module(a: TypedModuleView, b: TypedModuleView) -> bool {
    a.functions.len() == b.functions.len() && forall|k: int|
        0 <= k < a.functions.len() ==> (#[trigger] a.functions[k]).0 == b.functions[k].0
            && same_head(a.functions[k].1, b.functions[k].1)
}

/// Whether two programs have the same modules with the same symbols under
/// the same keys, but for the statements of their functions.
pub open spec fn same_heads(a: TypedProgramView, b: TypedProgramView) -> bool {
    a.main == b.main && a.modules.len() == b.modules.len() && forall|k: int|
        0 <= k < a.modules.len() ==> (#[trigger] a.modules[k]).0 == b.modules[k].0
            && same_heads_in_module(a.modules[k].1, b.modules[k].1)
}

proof fn lemma_symbols<T: Field>(m: TypedModuleView, n: nat)
    requires
        readable_module(m),
        n <= m.functions.len(),
    ensures
        folded_symbols::<VariableReadRemover<T>>(Seq::empty(), m.functions, n).0 == Seq::<
            TypedStatementView,
        >::empty(),
        folded_symbols::<VariableReadRemover<T>>(Seq::empty(), m.functions, n).1.len() == n,
        forall|k: int|
            0 <= k < n ==> match (#[trigger] folded_symbols::<VariableReadRemover<T>>(
                Seq::empty(),
                m.functions,
                n,
            ).1[k]).1 {
                TypedFunctionSymbolView::Here(f) => constant_in_statements(f.statements),
                _ => true,
            },
        forall|k: int|
            0 <= k < n ==> (#[trigger] folded_symbols::<VariableReadRemover<T>>(
                Seq::empty(),
                m.functions,
                n,
            ).1[k]).0 == m.functions[k].0 && same_head(
                folded_symbols::<VariableReadRemover<T>>(Seq::empty(), m.functions, n).1[k].1,
                m.functions[k].1,
            ),
    decreases n,
{
    if n > 0 {
        lemma_symbols::<T>(m, (n - 1) as nat);
        let before = folded_symbols::<VariableReadRemover<T>>(
            Seq::empty(),
            m.functions,
            (n - 1) as nat,
        );
        match m.functions[n - 1].1 {
            TypedFunctionSymbolView::Here(f) => lemma_function::<T>(f),
            _ => {},
        }
        let after = folded_symbols::<VariableReadRemover<T>>(Seq::empty(), m.functions, n);
        assert forall|k: int| 0 <= k < n implies match (#[trigger] after.1[k]).1 {
            TypedFunctionSymbolView::Here(f) => constant_in_statements(f.statements),
            _ => true,
        } && after.1[k].0 == m.functions[k].0 && same_head(after.1[k].1, m.functions[k].1) by {
            if k < n - 1 {
                assert(after.1[k] == before.1[k]);
            }
        }
    }
}

proof fn lemma_modules<T: Field>(p: TypedProgramView, n: nat)
    requires
        readable_program(p),
        n <= p.modules.len(),
    ensures
        folded_modules::<VariableReadRemover<T>>(Seq::empty(), p.modules, n).0 == Seq::<
            TypedStatementView,
        >::empty(),
        folded_modules::<VariableReadRemover<T>>(Seq::empty(), p.modules, n).1.len() == n,
        forall|k: int|
            0 <= k < n ==> constant_in_module(
                (#[trigger] folded_modules::<VariableReadRemover<T>>(
                    Seq::empty(),
                    p.modules,
                    n,
                ).1[k]).1,
            ),
        forall|k: int|
            0 <= k < n ==> (#[trigger] folded_modules::<VariableReadRemover<T>>(
                Seq::empty(),
                p.modules,
                n,
            ).1[k]).0 == p.modules[k].0 && same_heads_in_module(
                folded_modules::<VariableReadRemover<T>>(Seq::empty(), p.modules, n).1[k].1,
                p.modules[k].1,
            ),
    decreases n,
{
    if n > 0 {
        lemma_modules::<T>(p, (n - 1) as nat);
        let before = folded_modules::<VariableReadRemover<T>>(
            Seq::empty(),
            p.modules,
            (n - 1) as nat,
        );
        let m = p.modules[n - 1].1;
        lemma_symbols::<T>(m, m.functions.len());
        let after = folded_modules::<VariableReadRemover<T>>(Seq::empty(), p.modules, n);
        assert forall|k: int| 0 <= k < n implies constant_in_module((#[trigger] after.1[k]).1)
            && after.1[k].0 == p.modules[k].0 && same_heads_in_module(
            after.1[k].1,
            p.modules[k].1,
        ) by {
            if k < n - 1 {
                assert(after.1[k] == before.1[k]);
            }
        }
    }
}

/// The pass leaves no read at an index that is no constant: in what it
/// makes of a program whose reads it can take out, every read of an array
/// is at a constant, also inside the arrays and indices of other reads and
/// in the assertions that the pass adds. The modules, the keys, and the
/// parameters and signatures of the functions stay.
pub proof fn law_reads_removed<T: Field>(p: TypedProgramView)
    requires
        readable_program(p),
    ensures
        constant_in_program(folded_program::<VariableReadRemover<T>>(Seq::empty(), p).1),
        same_heads(folded_program::<VariableReadRemover<T>>(Seq::empty(), p).1, p),
{
    lemma_modules::<T>(p, p.modules.len());
}

} // verus!
