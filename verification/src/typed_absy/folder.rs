//! A walk through a typed program that builds the program anew. A folder
//! says what to do at the places it cares about; everywhere else the walk
//! goes on into the parts.

use vstd::prelude::*;
use crate::typed_absy::expression::{
    ArrayExpressionInnerView, ArrayExpressionView, BooleanExpressionView,
    FieldElementExpressionView, StructExpressionInnerView, StructExpressionView,
    TypedExpressionView, UExpressionInnerView, UExpressionView,
};
use crate::typed_absy::identifier::IdentifierView;
use crate::typed_absy::parameter::ParameterView;
use crate::typed_absy::program::{
    TypedAssigneeView, TypedExpressionListView, TypedFunctionSymbolView, TypedFunctionView,
    TypedModuleView, TypedProgramView, TypedStatementView,
};
use crate::typed_absy::types::{FunctionKeyView, StructTypeView, TypeView, UBitwidth};
use crate::typed_absy::variable::VariableView;

verus! {

/// What a folder says of an expression it is shown: what the expression
/// becomes, or that the walk should go on into its parts.
pub enum Folded<X> {
    /// The expression becomes this; the walk does not go into its parts.
    Done(X),
    /// The walk goes on into the parts of the expression, which is handed
    /// back as it came.
    Recurse(X),
}

/// What a folder says at each place of the walk, as a function of what the
/// folder knows: its view. At every kind of node the folder is asked before
/// the walk goes into the parts, when it can take the walk's place; at a
/// field, boolean or inner expression and at a statement it is asked once
/// more, after the parts were folded.
pub trait FolderSpec: Sized + View {
    /// What a name becomes.
    spec fn name_fold(state: Self::V, n: IdentifierView) -> (Self::V, IdentifierView);

    /// What the folder says of a field expression.
    spec fn field_hook(state: Self::V, e: FieldElementExpressionView) -> (
        Self::V,
        Option<FieldElementExpressionView>,
    );

    /// What the folder says of a boolean expression.
    spec fn boolean_hook(state: Self::V, e: BooleanExpressionView) -> (
        Self::V,
        Option<BooleanExpressionView>,
    );

    /// What the folder says of an unsigned integer expression of the given
    /// width.
    spec fn uint_hook(state: Self::V, bitwidth: UBitwidth, e: UExpressionInnerView) -> (
        Self::V,
        Option<UExpressionInnerView>,
    );

    /// What the folder says of an array expression of the given size and
    /// element type.
    spec fn array_hook(state: Self::V, ty: TypeView, size: nat, e: ArrayExpressionInnerView) -> (
        Self::V,
        Option<ArrayExpressionInnerView>,
    );

    /// What the folder says of a struct expression of the given type.
    spec fn struct_hook(state: Self::V, ty: StructTypeView, e: StructExpressionInnerView) -> (
        Self::V,
        Option<StructExpressionInnerView>,
    );

    /// What the folder says of a variable: the variable that takes its
    /// place, or the variable that the walk goes on with.
    spec fn variable_hook(state: Self::V, v: VariableView) -> (Self::V, Folded<VariableView>);

    /// What the folder says of a parameter: the parameter that takes its
    /// place, or the parameter that the walk goes on with.
    spec fn parameter_hook(state: Self::V, p: ParameterView) -> (Self::V, Folded<ParameterView>);

    /// What the folder says of a call that returns several values: the call
    /// that takes its place, or the call that the walk goes on with.
    spec fn expression_list_hook(state: Self::V, es: TypedExpressionListView) -> (
        Self::V,
        Folded<TypedExpressionListView>,
    );

    /// What the folder says of a function: the function that takes its
    /// place, or the function that the walk goes on with.
    spec fn function_hook(state: Self::V, f: TypedFunctionView) -> (
        Self::V,
        Folded<TypedFunctionView>,
    );

    /// What the folder says of a function symbol: the symbol that takes its
    /// place, or the symbol that the walk goes on with. That can be another
    /// symbol, such as the function that an import stands for.
    spec fn function_symbol_hook(state: Self::V, s: TypedFunctionSymbolView) -> (
        Self::V,
        Folded<TypedFunctionSymbolView>,
    );

    /// What the folder says of a module: the module that takes its place,
    /// or the module that the walk goes on with.
    spec fn module_hook(state: Self::V, m: TypedModuleView) -> (Self::V, Folded<TypedModuleView>);

    /// What the folder says of a program: the program that takes its place,
    /// or the program that the walk goes on with.
    spec fn program_hook(state: Self::V, p: TypedProgramView) -> (
        Self::V,
        Folded<TypedProgramView>,
    );

    /// What the folder says of an assignee.
    spec fn assignee_hook(state: Self::V, a: TypedAssigneeView) -> (
        Self::V,
        Option<TypedAssigneeView>,
    );

    /// What the folder says of a statement before the walk goes into its
    /// parts: the statements that take its place, if it says so.
    spec fn statement_enter(state: Self::V, s: TypedStatementView) -> (
        Self::V,
        Option<Seq<TypedStatementView>>,
    );

    /// What the folder says of an expression of any kind.
    spec fn expression_hook(state: Self::V, e: TypedExpressionView) -> (
        Self::V,
        Option<TypedExpressionView>,
    );

    /// What the folder says of an unsigned integer expression with its
    /// width.
    spec fn uint_outer_hook(state: Self::V, e: UExpressionView) -> (
        Self::V,
        Option<UExpressionView>,
    );

    /// What the folder says of an array expression with its size and
    /// element type.
    spec fn array_outer_hook(state: Self::V, e: ArrayExpressionView) -> (
        Self::V,
        Option<ArrayExpressionView>,
    );

    /// What the folder says of a struct expression with its type.
    spec fn struct_outer_hook(state: Self::V, e: StructExpressionView) -> (
        Self::V,
        Option<StructExpressionView>,
    );

    /// What the folder makes of a field expression whose parts were folded.
    spec fn field_done(state: Self::V, e: FieldElementExpressionView) -> (
        Self::V,
        FieldElementExpressionView,
    );

    /// What the folder makes of a boolean expression whose parts were
    /// folded.
    spec fn boolean_done(state: Self::V, e: BooleanExpressionView) -> (
        Self::V,
        BooleanExpressionView,
    );

    /// What the folder makes of an unsigned integer expression whose parts
    /// were folded.
    spec fn uint_done(state: Self::V, bitwidth: UBitwidth, e: UExpressionInnerView) -> (
        Self::V,
        UExpressionInnerView,
    );

    /// What the folder makes of an array expression whose parts were
    /// folded.
    spec fn array_done(state: Self::V, ty: TypeView, size: nat, e: ArrayExpressionInnerView) -> (
        Self::V,
        ArrayExpressionInnerView,
    );

    /// What the folder makes of a struct expression whose parts were
    /// folded.
    spec fn struct_done(state: Self::V, ty: StructTypeView, e: StructExpressionInnerView) -> (
        Self::V,
        StructExpressionInnerView,
    );

    /// What the statements that a statement was folded into become.
    spec fn statement_hook(state: Self::V, folded: Seq<TypedStatementView>) -> (
        Self::V,
        Seq<TypedStatementView>,
    );
}

/// What a list of expressions becomes: each is folded in order.
pub open spec fn folded_expressions<F: FolderSpec>(
    st: F::V,
    list: Seq<TypedExpressionView>,
    n: nat,
) -> (F::V, Seq<TypedExpressionView>)
    decreases list, n,
{
    if n == 0 || n > list.len() {
        (st, Seq::empty())
    } else {
        let before = folded_expressions::<F>(st, list, (n - 1) as nat);
        let e = folded_expression::<F>(before.0, list[n - 1]);
        (e.0, before.1.push(e.1))
    }
}

/// What an expression becomes: what the folder says, or the expression
/// folded as the kind of expression it is.
pub open spec fn folded_expression<F: FolderSpec>(st: F::V, e: TypedExpressionView) -> (
    F::V,
    TypedExpressionView,
)
    decreases e, 3nat,
{
    let hook = F::expression_hook(st, e);
    match hook.1 {
        Some(r) => (hook.0, r),
        None => expression_parts::<F>(hook.0, e),
    }
}

/// An expression folded as the kind of expression it is.
pub open spec fn expression_parts<F: FolderSpec>(st: F::V, e: TypedExpressionView) -> (
    F::V,
    TypedExpressionView,
)
    decreases e, 2nat,
{
    match e {
        TypedExpressionView::FieldElement(x) => {
            let r = folded_field::<F>(st, x);
            (r.0, TypedExpressionView::FieldElement(r.1))
        },
        TypedExpressionView::Boolean(x) => {
            let r = folded_boolean::<F>(st, x);
            (r.0, TypedExpressionView::Boolean(r.1))
        },
        TypedExpressionView::Uint(x) => {
            let r = folded_uint::<F>(st, x);
            (r.0, TypedExpressionView::Uint(r.1))
        },
        TypedExpressionView::Array(x) => {
            let r = folded_array::<F>(st, x);
            (r.0, TypedExpressionView::Array(r.1))
        },
        TypedExpressionView::Struct(x) => {
            let r = folded_struct::<F>(st, x);
            (r.0, TypedExpressionView::Struct(r.1))
        },
    }
}

/// What a field expression becomes: what the folder says, or what the
/// folder makes of the same kind of expression with its parts folded in
/// order.
pub open spec fn folded_field<F: FolderSpec>(st: F::V, e: FieldElementExpressionView) -> (
    F::V,
    FieldElementExpressionView,
)
    decreases e, 1nat,
{
    let hook = F::field_hook(st, e);
    match hook.1 {
        Some(r) => (hook.0, r),
        None => {
            let r = field_parts::<F>(hook.0, e);
            F::field_done(r.0, r.1)
        },
    }
}

/// A field expression with its parts folded in order.
pub open spec fn field_parts<F: FolderSpec>(st: F::V, e: FieldElementExpressionView) -> (
    F::V,
    FieldElementExpressionView,
)
    decreases e, 0nat,
{
    match e {
        FieldElementExpressionView::Number(n) => (st, e),
        FieldElementExpressionView::Identifier(id) => {
            let r = F::name_fold(st, id);
            (r.0, FieldElementExpressionView::Identifier(r.1))
        },
        FieldElementExpressionView::Binary(op, a, b) => {
            let x = folded_field::<F>(st, *a);
            let y = folded_field::<F>(x.0, *b);
            (y.0, FieldElementExpressionView::Binary(op, Box::new(x.1), Box::new(y.1)))
        },
        FieldElementExpressionView::IfElse(c, a, b) => {
            let x = folded_boolean::<F>(st, *c);
            let y = folded_field::<F>(x.0, *a);
            let z = folded_field::<F>(y.0, *b);
            (
                z.0,
                FieldElementExpressionView::IfElse(Box::new(x.1), Box::new(y.1), Box::new(z.1)),
            )
        },
        FieldElementExpressionView::FunctionCall(k, args) => {
            let r = folded_expressions::<F>(st, args, args.len());
            (r.0, FieldElementExpressionView::FunctionCall(k, r.1))
        },
        FieldElementExpressionView::Member(s, m) => {
            let r = folded_struct::<F>(st, *s);
            (r.0, FieldElementExpressionView::Member(Box::new(r.1), m))
        },
        FieldElementExpressionView::Select(a, i) => {
            let x = folded_array::<F>(st, *a);
            let y = folded_field::<F>(x.0, *i);
            (y.0, FieldElementExpressionView::Select(Box::new(x.1), Box::new(y.1)))
        },
    }
}

/// What a boolean expression becomes.
pub open spec fn folded_boolean<F: FolderSpec>(st: F::V, e: BooleanExpressionView) -> (
    F::V,
    BooleanExpressionView,
)
    decreases e, 1nat,
{
    let hook = F::boolean_hook(st, e);
    match hook.1 {
        Some(r) => (hook.0, r),
        None => {
            let r = boolean_parts::<F>(hook.0, e);
            F::boolean_done(r.0, r.1)
        },
    }
}

/// A boolean expression with its parts folded in order.
pub open spec fn boolean_parts<F: FolderSpec>(st: F::V, e: BooleanExpressionView) -> (
    F::V,
    BooleanExpressionView,
)
    decreases e, 0nat,
{
    match e {
        BooleanExpressionView::Value(v) => (st, e),
        BooleanExpressionView::Identifier(id) => {
            let r = F::name_fold(st, id);
            (r.0, BooleanExpressionView::Identifier(r.1))
        },
        BooleanExpressionView::Compare(op, a, b) => {
            let x = folded_field::<F>(st, *a);
            let y = folded_field::<F>(x.0, *b);
            (y.0, BooleanExpressionView::Compare(op, Box::new(x.1), Box::new(y.1)))
        },
        BooleanExpressionView::Binary(op, a, b) => {
            let x = folded_boolean::<F>(st, *a);
            let y = folded_boolean::<F>(x.0, *b);
            (y.0, BooleanExpressionView::Binary(op, Box::new(x.1), Box::new(y.1)))
        },
        BooleanExpressionView::ArrayEq(a, b) => {
            let x = folded_array::<F>(st, *a);
            let y = folded_array::<F>(x.0, *b);
            (y.0, BooleanExpressionView::ArrayEq(Box::new(x.1), Box::new(y.1)))
        },
        BooleanExpressionView::StructEq(a, b) => {
            let x = folded_struct::<F>(st, *a);
            let y = folded_struct::<F>(x.0, *b);
            (y.0, BooleanExpressionView::StructEq(Box::new(x.1), Box::new(y.1)))
        },
        BooleanExpressionView::UintEq(a, b) => {
            let x = folded_uint::<F>(st, *a);
            let y = folded_uint::<F>(x.0, *b);
            (y.0, BooleanExpressionView::UintEq(Box::new(x.1), Box::new(y.1)))
        },
        BooleanExpressionView::Not(a) => {
            let x = folded_boolean::<F>(st, *a);
            (x.0, BooleanExpressionView::Not(Box::new(x.1)))
        },
        BooleanExpressionView::IfElse(c, a, b) => {
            let x = folded_boolean::<F>(st, *c);
            let y = folded_boolean::<F>(x.0, *a);
            let z = folded_boolean::<F>(y.0, *b);
            (z.0, BooleanExpressionView::IfElse(Box::new(x.1), Box::new(y.1), Box::new(z.1)))
        },
        BooleanExpressionView::Member(s, m) => {
            let r = folded_struct::<F>(st, *s);
            (r.0, BooleanExpressionView::Member(Box::new(r.1), m))
        },
        BooleanExpressionView::FunctionCall(k, args) => {
            let r = folded_expressions::<F>(st, args, args.len());
            (r.0, BooleanExpressionView::FunctionCall(k, r.1))
        },
        BooleanExpressionView::Select(a, i) => {
            let x = folded_array::<F>(st, *a);
            let y = folded_field::<F>(x.0, *i);
            (y.0, BooleanExpressionView::Select(Box::new(x.1), Box::new(y.1)))
        },
    }
}

/// What an unsigned integer expression becomes: what the folder says, or
/// the expression with its inner expression folded.
pub open spec fn folded_uint<F: FolderSpec>(st: F::V, e: UExpressionView) -> (F::V, UExpressionView)
    decreases e, 3nat,
{
    let hook = F::uint_outer_hook(st, e);
    match hook.1 {
        Some(r) => (hook.0, r),
        None => folded_uint_inner::<F>(hook.0, e),
    }
}

/// An unsigned integer expression with its inner expression folded: its
/// width stays.
pub open spec fn folded_uint_inner<F: FolderSpec>(st: F::V, e: UExpressionView) -> (
    F::V,
    UExpressionView,
)
    decreases e, 2nat,
{
    let hook = F::uint_hook(st, e.bitwidth, e.inner);
    match hook.1 {
        Some(r) => (hook.0, UExpressionView { bitwidth: e.bitwidth, inner: r }),
        None => {
            let parts = uint_parts::<F>(hook.0, e.inner);
            let r = F::uint_done(parts.0, e.bitwidth, parts.1);
            (r.0, UExpressionView { bitwidth: e.bitwidth, inner: r.1 })
        },
    }
}

/// An unsigned integer expression with its parts folded in order.
pub open spec fn uint_parts<F: FolderSpec>(st: F::V, e: UExpressionInnerView) -> (
    F::V,
    UExpressionInnerView,
)
    decreases e, 0nat,
{
    match e {
        UExpressionInnerView::Value(v) => (st, e),
        UExpressionInnerView::Identifier(id) => {
            let r = F::name_fold(st, id);
            (r.0, UExpressionInnerView::Identifier(r.1))
        },
        UExpressionInnerView::Binary(op, a, b) => {
            let x = folded_uint::<F>(st, *a);
            let y = folded_uint::<F>(x.0, *b);
            (y.0, UExpressionInnerView::Binary(op, Box::new(x.1), Box::new(y.1)))
        },
        UExpressionInnerView::Shift(op, a, by) => {
            let x = folded_uint::<F>(st, *a);
            let y = folded_field::<F>(x.0, *by);
            (y.0, UExpressionInnerView::Shift(op, Box::new(x.1), Box::new(y.1)))
        },
        UExpressionInnerView::Not(a) => {
            let x = folded_uint::<F>(st, *a);
            (x.0, UExpressionInnerView::Not(Box::new(x.1)))
        },
        UExpressionInnerView::FunctionCall(k, args) => {
            let r = folded_expressions::<F>(st, args, args.len());
            (r.0, UExpressionInnerView::FunctionCall(k, r.1))
        },
        UExpressionInnerView::Select(a, i) => {
            let x = folded_array::<F>(st, *a);
            let y = folded_field::<F>(x.0, *i);
            (y.0, UExpressionInnerView::Select(Box::new(x.1), Box::new(y.1)))
        },
        UExpressionInnerView::IfElse(c, a, b) => {
            let x = folded_boolean::<F>(st, *c);
            let y = folded_uint::<F>(x.0, *a);
            let z = folded_uint::<F>(y.0, *b);
            (z.0, UExpressionInnerView::IfElse(Box::new(x.1), Box::new(y.1), Box::new(z.1)))
        },
        UExpressionInnerView::Member(s, m) => {
            let r = folded_struct::<F>(st, *s);
            (r.0, UExpressionInnerView::Member(Box::new(r.1), m))
        },
    }
}

/// What an array expression becomes: what the folder says, or the
/// expression with its inner expression folded.
pub open spec fn folded_array<F: FolderSpec>(st: F::V, e: ArrayExpressionView) -> (
    F::V,
    ArrayExpressionView,
)
    decreases e, 3nat,
{
    let hook = F::array_outer_hook(st, e);
    match hook.1 {
        Some(r) => (hook.0, r),
        None => folded_array_inner::<F>(hook.0, e),
    }
}

/// An array expression with its inner expression folded: its size and
/// element type stay.
pub open spec fn folded_array_inner<F: FolderSpec>(st: F::V, e: ArrayExpressionView) -> (
    F::V,
    ArrayExpressionView,
)
    decreases e, 2nat,
{
    let hook = F::array_hook(st, e.ty, e.size, e.inner);
    match hook.1 {
        Some(r) => (hook.0, ArrayExpressionView { inner: r, ..e }),
        None => {
            let parts = array_parts::<F>(hook.0, e.inner);
            let r = F::array_done(parts.0, e.ty, e.size, parts.1);
            (r.0, ArrayExpressionView { inner: r.1, ..e })
        },
    }
}

/// An array expression with its parts folded in order.
pub open spec fn array_parts<F: FolderSpec>(st: F::V, e: ArrayExpressionInnerView) -> (
    F::V,
    ArrayExpressionInnerView,
)
    decreases e, 0nat,
{
    match e {
        ArrayExpressionInnerView::Identifier(id) => {
            let r = F::name_fold(st, id);
            (r.0, ArrayExpressionInnerView::Identifier(r.1))
        },
        ArrayExpressionInnerView::Value(v) => {
            let r = folded_expressions::<F>(st, v, v.len());
            (r.0, ArrayExpressionInnerView::Value(r.1))
        },
        ArrayExpressionInnerView::FunctionCall(k, args) => {
            let r = folded_expressions::<F>(st, args, args.len());
            (r.0, ArrayExpressionInnerView::FunctionCall(k, r.1))
        },
        ArrayExpressionInnerView::IfElse(c, a, b) => {
            let x = folded_boolean::<F>(st, *c);
            let y = folded_array::<F>(x.0, *a);
            let z = folded_array::<F>(y.0, *b);
            (z.0, ArrayExpressionInnerView::IfElse(Box::new(x.1), Box::new(y.1), Box::new(z.1)))
        },
        ArrayExpressionInnerView::Member(s, m) => {
            let r = folded_struct::<F>(st, *s);
            (r.0, ArrayExpressionInnerView::Member(Box::new(r.1), m))
        },
        ArrayExpressionInnerView::Select(a, i) => {
            let x = folded_array::<F>(st, *a);
            let y = folded_field::<F>(x.0, *i);
            (y.0, ArrayExpressionInnerView::Select(Box::new(x.1), Box::new(y.1)))
        },
    }
}

/// What a struct expression becomes: what the folder says, or the
/// expression with its inner expression folded.
pub open spec fn folded_struct<F: FolderSpec>(st: F::V, e: StructExpressionView) -> (
    F::V,
    StructExpressionView,
)
    decreases e, 3nat,
{
    let hook = F::struct_outer_hook(st, e);
    match hook.1 {
        Some(r) => (hook.0, r),
        None => folded_struct_inner::<F>(hook.0, e),
    }
}

/// A struct expression with its inner expression folded: its type stays.
pub open spec fn folded_struct_inner<F: FolderSpec>(st: F::V, e: StructExpressionView) -> (
    F::V,
    StructExpressionView,
)
    decreases e, 2nat,
{
    let hook = F::struct_hook(st, e.ty, e.inner);
    match hook.1 {
        Some(r) => (hook.0, StructExpressionView { inner: r, ..e }),
        None => {
            let parts = struct_parts::<F>(hook.0, e.inner);
            let r = F::struct_done(parts.0, e.ty, parts.1);
            (r.0, StructExpressionView { inner: r.1, ..e })
        },
    }
}

/// A struct expression with its parts folded in order.
pub open spec fn struct_parts<F: FolderSpec>(st: F::V, e: StructExpressionInnerView) -> (
    F::V,
    StructExpressionInnerView,
)
    decreases e, 0nat,
{
    match e {
        StructExpressionInnerView::Identifier(id) => {
            let r = F::name_fold(st, id);
            (r.0, StructExpressionInnerView::Identifier(r.1))
        },
        StructExpressionInnerView::Value(v) => {
            let r = folded_expressions::<F>(st, v, v.len());
            (r.0, StructExpressionInnerView::Value(r.1))
        },
        StructExpressionInnerView::FunctionCall(k, args) => {
            let r = folded_expressions::<F>(st, args, args.len());
            (r.0, StructExpressionInnerView::FunctionCall(k, r.1))
        },
        StructExpressionInnerView::IfElse(c, a, b) => {
            let x = folded_boolean::<F>(st, *c);
            let y = folded_struct::<F>(x.0, *a);
            let z = folded_struct::<F>(y.0, *b);
            (z.0, StructExpressionInnerView::IfElse(Box::new(x.1), Box::new(y.1), Box::new(z.1)))
        },
        StructExpressionInnerView::Member(s, m) => {
            let r = folded_struct::<F>(st, *s);
            (r.0, StructExpressionInnerView::Member(Box::new(r.1), m))
        },
        StructExpressionInnerView::Select(a, i) => {
            let x = folded_array::<F>(st, *a);
            let y = folded_field::<F>(x.0, *i);
            (y.0, StructExpressionInnerView::Select(Box::new(x.1), Box::new(y.1)))
        },
    }
}

/// What a variable becomes: what the folder says, or the variable it goes
/// on with, its name folded.
pub open spec fn folded_variable<F: FolderSpec>(st: F::V, v: VariableView) -> (F::V, VariableView) {
    let hook = F::variable_hook(st, v);
    match hook.1 {
        Folded::Done(x) => (hook.0, x),
        Folded::Recurse(x) => variable_parts::<F>(hook.0, x),
    }
}

/// A variable with its name folded; its type stays.
pub open spec fn variable_parts<F: FolderSpec>(st: F::V, v: VariableView) -> (F::V, VariableView) {
    let r = F::name_fold(st, v.id);
    (r.0, VariableView { id: r.1, ..v })
}

/// What a parameter becomes: what the folder says, or the parameter it
/// goes on with, its variable folded.
pub open spec fn folded_parameter<F: FolderSpec>(st: F::V, p: ParameterView) -> (
    F::V,
    ParameterView,
) {
    let hook = F::parameter_hook(st, p);
    match hook.1 {
        Folded::Done(x) => (hook.0, x),
        Folded::Recurse(x) => parameter_parts::<F>(hook.0, x),
    }
}

/// A parameter with its variable folded.
pub open spec fn parameter_parts<F: FolderSpec>(st: F::V, p: ParameterView) -> (
    F::V,
    ParameterView,
) {
    let r = folded_variable::<F>(st, p.id);
    (r.0, ParameterView { id: r.1, ..p })
}

/// What an assignee becomes: what the folder says, or the assignee with
/// its parts folded.
pub open spec fn folded_assignee<F: FolderSpec>(st: F::V, a: TypedAssigneeView) -> (
    F::V,
    TypedAssigneeView,
)
    decreases a, 1nat,
{
    let hook = F::assignee_hook(st, a);
    match hook.1 {
        Some(r) => (hook.0, r),
        None => assignee_parts::<F>(hook.0, a),
    }
}

/// An assignee with its parts folded.
pub open spec fn assignee_parts<F: FolderSpec>(st: F::V, a: TypedAssigneeView) -> (
    F::V,
    TypedAssigneeView,
)
    decreases a, 0nat,
{
    match a {
        TypedAssigneeView::Identifier(v) => {
            let r = folded_variable::<F>(st, v);
            (r.0, TypedAssigneeView::Identifier(r.1))
        },
        TypedAssigneeView::Select(a, index) => {
            let x = folded_assignee::<F>(st, *a);
            let y = folded_field::<F>(x.0, *index);
            (y.0, TypedAssigneeView::Select(Box::new(x.1), Box::new(y.1)))
        },
        TypedAssigneeView::Member(s, m) => {
            let x = folded_assignee::<F>(st, *s);
            (x.0, TypedAssigneeView::Member(Box::new(x.1), m))
        },
    }
}

/// What the first `n` assignees of a list become.
pub open spec fn folded_assignees<F: FolderSpec>(st: F::V, list: Seq<TypedAssigneeView>, n: nat) -> (
    F::V,
    Seq<TypedAssigneeView>,
)
    decreases n,
{
    if n == 0 || n > list.len() {
        (st, Seq::empty())
    } else {
        let before = folded_assignees::<F>(st, list, (n - 1) as nat);
        let a = folded_assignee::<F>(before.0, list[n - 1]);
        (a.0, before.1.push(a.1))
    }
}

/// What a call that returns several values becomes: what the folder says,
/// or the call it goes on with, its arguments folded.
pub open spec fn folded_expression_list<F: FolderSpec>(st: F::V, es: TypedExpressionListView) -> (
    F::V,
    TypedExpressionListView,
) {
    let hook = F::expression_list_hook(st, es);
    match hook.1 {
        Folded::Done(x) => (hook.0, x),
        Folded::Recurse(x) => expression_list_parts::<F>(hook.0, x),
    }
}

/// A call that returns several values with its arguments folded.
pub open spec fn expression_list_parts<F: FolderSpec>(st: F::V, es: TypedExpressionListView) -> (
    F::V,
    TypedExpressionListView,
) {
    let r = folded_expressions::<F>(st, es.arguments, es.arguments.len());
    (r.0, TypedExpressionListView { arguments: r.1, ..es })
}

/// A statement with its parts folded in order. The bounds of a loop stay
/// as they are.
pub open spec fn statement_parts<F: FolderSpec>(st: F::V, s: TypedStatementView) -> (
    F::V,
    TypedStatementView,
)
    decreases s, 0nat,
{
    match s {
        TypedStatementView::Return(es) => {
            let r = folded_expressions::<F>(st, es, es.len());
            (r.0, TypedStatementView::Return(r.1))
        },
        TypedStatementView::Definition(a, e) => {
            let x = folded_assignee::<F>(st, a);
            let y = folded_expression::<F>(x.0, e);
            (y.0, TypedStatementView::Definition(x.1, y.1))
        },
        TypedStatementView::Declaration(v) => {
            let r = folded_variable::<F>(st, v);
            (r.0, TypedStatementView::Declaration(r.1))
        },
        TypedStatementView::Assertion(e) => {
            let r = folded_boolean::<F>(st, e);
            (r.0, TypedStatementView::Assertion(r.1))
        },
        TypedStatementView::For(v, from, to, body) => {
            let x = folded_variable::<F>(st, v);
            let y = folded_statements::<F>(x.0, body, body.len());
            (y.0, TypedStatementView::For(x.1, from, to, y.1))
        },
        TypedStatementView::MultipleDefinition(assignees, call) => {
            let x = folded_assignees::<F>(st, assignees, assignees.len());
            let y = folded_expression_list::<F>(x.0, call);
            (y.0, TypedStatementView::MultipleDefinition(x.1, y.1))
        },
    }
}

/// What a statement becomes: what the folder says, or the statement with
/// its parts folded, and then what the folder makes of it, which can be
/// several statements.
pub open spec fn folded_statement<F: FolderSpec>(st: F::V, s: TypedStatementView) -> (
    F::V,
    Seq<TypedStatementView>,
)
    decreases s, 1nat,
{
    let hook = F::statement_enter(st, s);
    match hook.1 {
        Some(r) => (hook.0, r),
        None => {
            let r = statement_parts::<F>(hook.0, s);
            F::statement_hook(r.0, seq![r.1])
        },
    }
}

/// What the first `n` statements of a list become: what each becomes, one
/// after the other.
pub open spec fn folded_statements<F: FolderSpec>(st: F::V, list: Seq<TypedStatementView>, n: nat) -> (
    F::V,
    Seq<TypedStatementView>,
)
    decreases list, n,
{
    if n == 0 || n > list.len() {
        (st, Seq::empty())
    } else {
        let before = folded_statements::<F>(st, list, (n - 1) as nat);
        let s = folded_statement::<F>(before.0, list[n - 1]);
        (s.0, before.1 + s.1)
    }
}

/// What the first `n` parameters of a list become.
pub open spec fn folded_parameters<F: FolderSpec>(st: F::V, list: Seq<ParameterView>, n: nat) -> (
    F::V,
    Seq<ParameterView>,
)
    decreases n,
{
    if n == 0 || n > list.len() {
        (st, Seq::empty())
    } else {
        let before = folded_parameters::<F>(st, list, (n - 1) as nat);
        let p = folded_parameter::<F>(before.0, list[n - 1]);
        (p.0, before.1.push(p.1))
    }
}

/// What a function becomes: what the folder says, or the function it goes
/// on with, its parts folded.
pub open spec fn folded_function<F: FolderSpec>(st: F::V, f: TypedFunctionView) -> (
    F::V,
    TypedFunctionView,
) {
    let hook = F::function_hook(st, f);
    match hook.1 {
        Folded::Done(x) => (hook.0, x),
        Folded::Recurse(x) => function_parts::<F>(hook.0, x),
    }
}

/// A function with its parameters and its statements folded; its signature
/// stays.
pub open spec fn function_parts<F: FolderSpec>(st: F::V, f: TypedFunctionView) -> (
    F::V,
    TypedFunctionView,
) {
    let x = folded_parameters::<F>(st, f.arguments, f.arguments.len());
    let y = folded_statements::<F>(x.0, f.statements, f.statements.len());
    (y.0, TypedFunctionView { arguments: x.1, statements: y.1, signature: f.signature })
}

/// What a function symbol becomes: what the folder says, or the symbol it
/// goes on with, folded.
pub open spec fn folded_function_symbol<F: FolderSpec>(st: F::V, s: TypedFunctionSymbolView) -> (
    F::V,
    TypedFunctionSymbolView,
) {
    let hook = F::function_symbol_hook(st, s);
    match hook.1 {
        Folded::Done(x) => (hook.0, x),
        Folded::Recurse(x) => function_symbol_parts::<F>(hook.0, x),
    }
}

/// A function symbol folded: a function of the module is folded, a function
/// of another module and a built-in gadget stay.
pub open spec fn function_symbol_parts<F: FolderSpec>(st: F::V, s: TypedFunctionSymbolView) -> (
    F::V,
    TypedFunctionSymbolView,
) {
    match s {
        TypedFunctionSymbolView::Here(f) => {
            let r = folded_function::<F>(st, f);
            (r.0, TypedFunctionSymbolView::Here(r.1))
        },
        other => (st, other),
    }
}

/// What the first `n` symbols of a module become: each symbol is folded,
/// its key stays.
pub open spec fn folded_symbols<F: FolderSpec>(
    st: F::V,
    list: Seq<(FunctionKeyView, TypedFunctionSymbolView)>,
    n: nat,
) -> (F::V, Seq<(FunctionKeyView, TypedFunctionSymbolView)>)
    decreases n,
{
    if n == 0 || n > list.len() {
        (st, Seq::empty())
    } else {
        let before = folded_symbols::<F>(st, list, (n - 1) as nat);
        let s = folded_function_symbol::<F>(before.0, list[n - 1].1);
        (s.0, before.1.push((list[n - 1].0, s.1)))
    }
}

/// What a module becomes: what the folder says, or the module it goes on
/// with, its symbols folded.
pub open spec fn folded_module<F: FolderSpec>(st: F::V, m: TypedModuleView) -> (
    F::V,
    TypedModuleView,
) {
    let hook = F::module_hook(st, m);
    match hook.1 {
        Folded::Done(x) => (hook.0, x),
        Folded::Recurse(x) => module_parts::<F>(hook.0, x),
    }
}

/// A module with each of its symbols folded.
pub open spec fn module_parts<F: FolderSpec>(st: F::V, m: TypedModuleView) -> (
    F::V,
    TypedModuleView,
) {
    let r = folded_symbols::<F>(st, m.functions, m.functions.len());
    (r.0, TypedModuleView { functions: r.1 })
}

/// What the first `n` modules of a program become.
pub open spec fn folded_modules<F: FolderSpec>(
    st: F::V,
    list: Seq<(Seq<char>, TypedModuleView)>,
    n: nat,
) -> (F::V, Seq<(Seq<char>, TypedModuleView)>)
    decreases n,
{
    if n == 0 || n > list.len() {
        (st, Seq::empty())
    } else {
        let before = folded_modules::<F>(st, list, (n - 1) as nat);
        let m = folded_module::<F>(before.0, list[n - 1].1);
        (m.0, before.1.push((list[n - 1].0, m.1)))
    }
}

/// What a program becomes: what the folder says, or the program it goes on
/// with, its modules folded.
pub open spec fn folded_program<F: FolderSpec>(st: F::V, p: TypedProgramView) -> (
    F::V,
    TypedProgramView,
) {
    let hook = F::program_hook(st, p);
    match hook.1 {
        Folded::Done(x) => (hook.0, x),
        Folded::Recurse(x) => program_parts::<F>(hook.0, x),
    }
}

/// A program with each of its modules folded.
pub open spec fn program_parts<F: FolderSpec>(st: F::V, p: TypedProgramView) -> (
    F::V,
    TypedProgramView,
) {
    let r = folded_modules::<F>(st, p.modules, p.modules.len());
    (r.0, TypedProgramView { modules: r.1, main: p.main })
}

} // verus!
