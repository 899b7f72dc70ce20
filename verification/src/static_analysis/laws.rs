//! What holds of the pass that takes reads at indices that are no
//! constants out of a program.

use vstd::prelude::*;
use vstd::arithmetic::div_mod::lemma_small_mod;
use crate::field::Field;
use crate::static_analysis::variable_read_remover::{
    VariableReadRemover, index_in_range, selected, selection,
};
use crate::typed_absy::expression::{
    ArrayExpressionView, BooleanExpressionView, BooleanOp, FieldComparison, FieldElementExpression,
    FieldElementExpressionView,
};
use crate::typed_absy::folder::{
    boolean_parts, field_parts, folded_array, folded_boolean, folded_field,
};
use crate::typed_absy::program::TypedStatementView;

verus! {

/// A read of a field element at a constant stays a read at that constant,
/// of the array as the pass leaves it.
pub proof fn law_constant_index_field<T: Field>(
    pending: Seq<TypedStatementView>,
    a: ArrayExpressionView,
    n: nat,
)
    ensures
        folded_field::<VariableReadRemover<T>>(
            pending,
            FieldElementExpressionView::Select(
                Box::new(a),
                Box::new(FieldElementExpressionView::Number(n)),
            ),
        ) == (
            folded_array::<VariableReadRemover<T>>(pending, a).0,
            FieldElementExpressionView::Select(
                Box::new(folded_array::<VariableReadRemover<T>>(pending, a).1),
                Box::new(FieldElementExpressionView::Number(n)),
            ),
        ),
{
    let x = folded_array::<VariableReadRemover<T>>(pending, a);
    let i = FieldElementExpressionView::Number(n);
    assert(field_parts::<VariableReadRemover<T>>(x.0, i) == (x.0, i));
    assert(folded_field::<VariableReadRemover<T>>(x.0, i) == (x.0, i));
    assert(field_parts::<VariableReadRemover<T>>(
        pending,
        FieldElementExpressionView::Select(Box::new(a), Box::new(i)),
    ) == (x.0, FieldElementExpressionView::Select(Box::new(x.1), Box::new(i))));
}

/// A read of a boolean at a constant stays a read at that constant, of the
/// array as the pass leaves it.
pub proof fn law_constant_index_boolean<T: Field>(
    pending: Seq<TypedStatementView>,
    a: ArrayExpressionView,
    n: nat,
)
    ensures
        folded_boolean::<VariableReadRemover<T>>(
            pending,
            BooleanExpressionView::Select(
                Box::new(a),
                Box::new(FieldElementExpressionView::Number(n)),
            ),
        ) == (
            folded_array::<VariableReadRemover<T>>(pending, a).0,
            BooleanExpressionView::Select(
                Box::new(folded_array::<VariableReadRemover<T>>(pending, a).1),
                Box::new(FieldElementExpressionView::Number(n)),
            ),
        ),
{
    let x = folded_array::<VariableReadRemover<T>>(pending, a);
    let i = FieldElementExpressionView::Number(n);
    assert(field_parts::<VariableReadRemover<T>>(x.0, i) == (x.0, i));
    assert(folded_field::<VariableReadRemover<T>>(x.0, i) == (x.0, i));
    assert(boolean_parts::<VariableReadRemover<T>>(
        pending,
        BooleanExpressionView::Select(Box::new(a), Box::new(i)),
    ) == (x.0, BooleanExpressionView::Select(Box::new(x.1), Box::new(i))));
}

/// Whether a disjunction of comparisons of `i` with constants holds when
/// `i` has the value `v`.
pub open spec fn holds(b: BooleanExpressionView, i: FieldElementExpressionView, v: nat) -> bool
    decreases b,
{
    match b {
        BooleanExpressionView::Compare(FieldComparison::Eq, x, y) => *x == i && *y
            == FieldElementExpressionView::Number(v),
        BooleanExpressionView::Binary(BooleanOp::Or, x, y) => holds(*x, i, v) || holds(*y, i, v),
        _ => false,
    }
}

/// What a chain of conditionals on comparisons of `i` with constants
/// selects when `i` has the value `v`.
pub open spec fn chosen(
    e: FieldElementExpressionView,
    i: FieldElementExpressionView,
    v: nat,
) -> FieldElementExpressionView
    decreases e,
{
    match e {
        FieldElementExpressionView::IfElse(c, x, rest) => if holds(*c, i, v) {
            *x
        } else {
            chosen(*rest, i, v)
        },
        _ => e,
    }
}

/// The assertion that a read at an index that is no constant earns holds
/// exactly when the index, a number of the field, is below the size of the
/// array.
pub proof fn law_index_assertion<T: Field>(i: FieldElementExpressionView, n: nat, v: nat)
    requires
        1 <= n,
        v < T::modulus(),
    ensures
        holds(index_in_range::<T>(i, n), i, v) <==> v < n,
    decreases n,
{
    reveal_with_fuel(holds, 3);
    if n <= 1 {
        lemma_small_mod(0, T::modulus());
    } else {
        law_index_assertion::<T>(i, (n - 1) as nat, v);
        if v >= n - 1 {
            lemma_small_mod((n - 1) as nat, T::modulus());
        }
    }
}

proof fn lemma_selection<T: Field>(
    a: ArrayExpressionView,
    i: FieldElementExpressionView,
    k: nat,
    n: nat,
    v: nat,
)
    requires
        k <= v < n,
        v < T::modulus(),
        !(i is Number),
    ensures
        chosen(selection::<T, FieldElementExpression<T>>(a, i, k, n), i, v)
            == FieldElementExpressionView::Select(
            Box::new(a),
            Box::new(FieldElementExpressionView::Number(v)),
        ),
    decreases n - k,
{
    lemma_small_mod(k, T::modulus());
    lemma_small_mod(v, T::modulus());
    if k + 1 < n {
        if v != k {
            lemma_selection::<T>(a, i, k + 1, n, v);
        }
    }
}

/// A read of a field element at an index that is no constant earns one
/// assertion, that the index is an index of the array, and becomes a chain
/// of conditionals that selects the element at the index, whichever index
/// of the array that is.
pub proof fn law_variable_index<T: Field>(
    pending: Seq<TypedStatementView>,
    a: ArrayExpressionView,
    i: FieldElementExpressionView,
    v: nat,
)
    requires
        !(i is Number),
        v < a.size,
        v < T::modulus(),
    ensures
        selected::<T, FieldElementExpression<T>>(pending, a, i).0 == pending.push(
            TypedStatementView::Assertion(index_in_range::<T>(i, a.size)),
        ),
        chosen(selected::<T, FieldElementExpression<T>>(pending, a, i).1, i, v)
            == FieldElementExpressionView::Select(
            Box::new(a),
            Box::new(FieldElementExpressionView::Number(v)),
        ),
{
    lemma_selection::<T>(a, i, 0, a.size, v);
}

} // verus!
