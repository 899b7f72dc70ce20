//! The pass that takes reads of arrays at indices that are no constants
//! out of a program. A read `a[i]` of an array of size `n` becomes
//!
//! ```text
//! if i == 0 then a[0] else if i == 1 then a[1] else ... else a[n - 1]
//! ```
//!
//! and the statement it stands in is preceded by the assertion
//! `i == 0 || i == 1 || ... || i == n - 1`. The array and the index are
//! rewritten first, so that reads inside them go as well.

use vstd::prelude::*;
use crate::field::Field;
use crate::semantics::typing::number;
use crate::typed_absy::expression::{
    ArrayExpression, ArrayExpressionInner, ArrayExpressionInnerView, ArrayExpressionView,
    BooleanExpression, BooleanExpressionView, BooleanOp, FieldComparison, FieldElementExpression,
    FieldElementExpressionView, StructExpression, StructExpressionInner,
    StructExpressionInnerView, StructExpressionView, TypedExpression, TypedExpressionView,
    UExpression, UExpressionInner, UExpressionInnerView, UExpressionView,
};
use crate::typed_absy::folder::{Folded, FolderSpec};
use crate::typed_absy::identifier::{Identifier, IdentifierView};
use crate::typed_absy::program::{
    TypedAssignee, TypedAssigneeView, TypedExpressionList, TypedExpressionListView, TypedFunction,
    TypedFunctionSymbol, TypedFunctionSymbolView, TypedFunctionView, TypedModule, TypedModuleView,
    TypedProgram, TypedProgramView, TypedStatement, TypedStatementView, statements_model,
};
use crate::typed_absy::typed::{IfElse, Select};
use crate::typed_absy::types::{StructType, StructTypeView, Type, TypeView, UBitwidth};
use crate::typed_absy::parameter::{Parameter, ParameterView};
use crate::typed_absy::variable::{Variable, VariableView};
use crate::typed_absy::walk::{FoldedStatement, Folder, visit_program};

verus! {

/// The pass: the assertions that the statement at hand has earned so far.
pub struct VariableReadRemover<T> {
    pub statements: Vec<TypedStatement<T>>,
}

impl<T: Field> View for VariableReadRemover<T> {
    type V = Seq<TypedStatementView>;

    open spec fn view(&self) -> Seq<TypedStatementView> {
        statements_model(&self.statements)
    }
}

/// `i == k`.
pub open spec fn index_is<T: Field>(i: FieldElementExpressionView, k: nat) -> BooleanExpressionView {
    BooleanExpressionView::Compare(FieldComparison::Eq, Box::new(i), Box::new(number::<T>(k)))
}

/// `i == 0 || i == 1 || ... || i == n - 1`, for `n` at least one.
pub open spec fn index_in_range<T: Field>(i: FieldElementExpressionView, n: nat) -> BooleanExpressionView
    decreases n,
{
    if n <= 1 {
        index_is::<T>(i, 0)
    } else {
        BooleanExpressionView::Binary(
            BooleanOp::Or,
            Box::new(index_in_range::<T>(i, (n - 1) as nat)),
            Box::new(index_is::<T>(i, (n - 1) as nat)),
        )
    }
}

/// `if i == k then a[k] else if i == k + 1 then a[k + 1] else ... else
/// a[n - 1]`, as an expression of the kind `U`.
pub open spec fn selection<T: Field, U: Select<T> + IfElse<T>>(
    a: ArrayExpressionView,
    i: FieldElementExpressionView,
    k: nat,
    n: nat,
) -> U::V
    decreases n - k,
{
    if k + 1 >= n {
        U::select_view(a, number::<T>((n - 1) as nat))
    } else {
        U::if_else_view(
            index_is::<T>(i, k),
            U::select_view(a, number::<T>(k)),
            selection::<T, U>(a, i, k + 1, n),
        )
    }
}

/// What a read of `a` at `i` becomes, and the assertions earned: a read at
/// a constant stays and earns nothing; any other read becomes the
/// selection among the elements of `a` and earns the assertion that `i` is
/// an index of `a`.
pub open spec fn selected<T: Field, U: Select<T> + IfElse<T>>(
    pending: Seq<TypedStatementView>,
    a: ArrayExpressionView,
    i: FieldElementExpressionView,
) -> (Seq<TypedStatementView>, U::V) {
    match i {
        FieldElementExpressionView::Number(n) => (pending, U::select_view(a, i)),
        _ => (
            pending.push(TypedStatementView::Assertion(index_in_range::<T>(i, a.size))),
            selection::<T, U>(a, i, 0, a.size),
        ),
    }
}

/// Whether the pass rewrites the read of `a` at `i`: the index is a
/// constant, or the array has elements to select among.
pub open spec fn rewrites(a: ArrayExpressionView, i: FieldElementExpressionView) -> bool {
    i is Number || a.size > 0
}

impl<T: Field> FolderSpec for VariableReadRemover<T> {
    open spec fn name_fold(state: Seq<TypedStatementView>, n: IdentifierView) -> (
        Seq<TypedStatementView>,
        IdentifierView,
    ) {
        (state, n)
    }

    open spec fn variable_hook(state: Seq<TypedStatementView>, v: VariableView) -> (
        Seq<TypedStatementView>,
        Folded<VariableView>,
    ) {
        (state, Folded::Recurse(v))
    }

    open spec fn parameter_hook(state: Seq<TypedStatementView>, p: ParameterView) -> (
        Seq<TypedStatementView>,
        Folded<ParameterView>,
    ) {
        (state, Folded::Recurse(p))
    }

    open spec fn expression_list_hook(
        state: Seq<TypedStatementView>,
        es: TypedExpressionListView,
    ) -> (Seq<TypedStatementView>, Folded<TypedExpressionListView>) {
        (state, Folded::Recurse(es))
    }

    open spec fn function_hook(state: Seq<TypedStatementView>, f: TypedFunctionView) -> (
        Seq<TypedStatementView>,
        Folded<TypedFunctionView>,
    ) {
        (state, Folded::Recurse(f))
    }

    open spec fn function_symbol_hook(
        state: Seq<TypedStatementView>,
        s: TypedFunctionSymbolView,
    ) -> (Seq<TypedStatementView>, Folded<TypedFunctionSymbolView>) {
        (state, Folded::Recurse(s))
    }

    open spec fn module_hook(state: Seq<TypedStatementView>, m: TypedModuleView) -> (
        Seq<TypedStatementView>,
        Folded<TypedModuleView>,
    ) {
        (state, Folded::Recurse(m))
    }

    open spec fn program_hook(state: Seq<TypedStatementView>, p: TypedProgramView) -> (
        Seq<TypedStatementView>,
        Folded<TypedProgramView>,
    ) {
        (state, Folded::Recurse(p))
    }

    open spec fn assignee_hook(state: Seq<TypedStatementView>, a: TypedAssigneeView) -> (
        Seq<TypedStatementView>,
        Option<TypedAssigneeView>,
    ) {
        (state, None)
    }

    open spec fn statement_enter(state: Seq<TypedStatementView>, s: TypedStatementView) -> (
        Seq<TypedStatementView>,
        Option<Seq<TypedStatementView>>,
    ) {
        (state, None)
    }

    open spec fn expression_hook(state: Seq<TypedStatementView>, e: TypedExpressionView) -> (
        Seq<TypedStatementView>,
        Option<TypedExpressionView>,
    ) {
        (state, None)
    }

    open spec fn uint_outer_hook(state: Seq<TypedStatementView>, e: UExpressionView) -> (
        Seq<TypedStatementView>,
        Option<UExpressionView>,
    ) {
        (state, None)
    }

    open spec fn array_outer_hook(state: Seq<TypedStatementView>, e: ArrayExpressionView) -> (
        Seq<TypedStatementView>,
        Option<ArrayExpressionView>,
    ) {
        (state, None)
    }

    open spec fn struct_outer_hook(state: Seq<TypedStatementView>, e: StructExpressionView) -> (
        Seq<TypedStatementView>,
        Option<StructExpressionView>,
    ) {
        (state, None)
    }

    open spec fn field_hook(state: Seq<TypedStatementView>, e: FieldElementExpressionView) -> (
        Seq<TypedStatementView>,
        Option<FieldElementExpressionView>,
    ) {
        (state, None)
    }

    open spec fn boolean_hook(state: Seq<TypedStatementView>, e: BooleanExpressionView) -> (
        Seq<TypedStatementView>,
        Option<BooleanExpressionView>,
    ) {
        (state, None)
    }

    open spec fn uint_hook(
        state: Seq<TypedStatementView>,
        bitwidth: UBitwidth,
        e: UExpressionInnerView,
    ) -> (Seq<TypedStatementView>, Option<UExpressionInnerView>) {
        (state, None)
    }

    open spec fn array_hook(
        state: Seq<TypedStatementView>,
        ty: TypeView,
        size: nat,
        e: ArrayExpressionInnerView,
    ) -> (Seq<TypedStatementView>, Option<ArrayExpressionInnerView>) {
        (state, None)
    }

    open spec fn struct_hook(
        state: Seq<TypedStatementView>,
        ty: StructTypeView,
        e: StructExpressionInnerView,
    ) -> (Seq<TypedStatementView>, Option<StructExpressionInnerView>) {
        (state, None)
    }

    open spec fn field_done(state: Seq<TypedStatementView>, e: FieldElementExpressionView) -> (
        Seq<TypedStatementView>,
        FieldElementExpressionView,
    ) {
        match e {
            FieldElementExpressionView::Select(a, i) => if rewrites(*a, *i) {
                selected::<T, FieldElementExpression<T>>(state, *a, *i)
            } else {
                (state, e)
            },
            _ => (state, e),
        }
    }

    open spec fn boolean_done(state: Seq<TypedStatementView>, e: BooleanExpressionView) -> (
        Seq<TypedStatementView>,
        BooleanExpressionView,
    ) {
        match e {
            BooleanExpressionView::Select(a, i) => if rewrites(*a, *i) {
                selected::<T, BooleanExpression<T>>(state, *a, *i)
            } else {
                (state, e)
            },
            _ => (state, e),
        }
    }

    open spec fn uint_done(
        state: Seq<TypedStatementView>,
        bitwidth: UBitwidth,
        e: UExpressionInnerView,
    ) -> (Seq<TypedStatementView>, UExpressionInnerView) {
        match e {
            UExpressionInnerView::Select(a, i) => if rewrites(*a, *i) && a.ty is Uint {
                let r = selected::<T, UExpression<T>>(state, *a, *i);
                (r.0, r.1.inner)
            } else {
                (state, e)
            },
            _ => (state, e),
        }
    }

    open spec fn array_done(
        state: Seq<TypedStatementView>,
        ty: TypeView,
        size: nat,
        e: ArrayExpressionInnerView,
    ) -> (Seq<TypedStatementView>, ArrayExpressionInnerView) {
        match e {
            ArrayExpressionInnerView::Select(a, i) => if rewrites(*a, *i) && a.ty is Array {
                let r = selected::<T, ArrayExpression<T>>(state, *a, *i);
                (r.0, r.1.inner)
            } else {
                (state, e)
            },
            _ => (state, e),
        }
    }

    open spec fn struct_done(
        state: Seq<TypedStatementView>,
        ty: StructTypeView,
        e: StructExpressionInnerView,
    ) -> (Seq<TypedStatementView>, StructExpressionInnerView) {
        match e {
            StructExpressionInnerView::Select(a, i) => if rewrites(*a, *i) && a.ty is Struct {
                let r = selected::<T, StructExpression<T>>(state, *a, *i);
                (r.0, r.1.inner)
            } else {
                (state, e)
            },
            _ => (state, e),
        }
    }

    open spec fn statement_hook(
        state: Seq<TypedStatementView>,
        folded: Seq<TypedStatementView>,
    ) -> (Seq<TypedStatementView>, Seq<TypedStatementView>) {
        (Seq::empty(), state + folded)
    }
}

/// Whether the index is a constant.
fn is_number<T: Field>(i: &FieldElementExpression<T>) -> (r: bool)
    ensures
        r == (i@ is Number),
{
    match i {
        FieldElementExpression::Number(_) => true,
        _ => false,
    }
}

/// `i == k`.
fn make_index_is<T: Field>(i: &FieldElementExpression<T>, k: usize) -> (r: BooleanExpression<T>)
    ensures
        r@ == index_is::<T>(i@, k as nat),
{
    let left = i.copy();
    let right = FieldElementExpression::Number(T::from_usize(k));
    assert(right@ == number::<T>(k as nat));
    BooleanExpression::FieldEq(Box::new(left), Box::new(right))
}

impl<T: Field> VariableReadRemover<T> {
    pub fn new() -> (r: Self)
        ensures
            r@ == Seq::<TypedStatementView>::empty(),
    {
        let r = VariableReadRemover { statements: Vec::new() };
        assert(r@ =~= Seq::<TypedStatementView>::empty());
        r
    }

    /// Takes the reads at indices that are no constants out of a program.
    pub fn apply(p: TypedProgram<T>) -> (r: TypedProgram<T>)
        ensures
            r@ == crate::typed_absy::folder::folded_program::<VariableReadRemover<T>>(
                Seq::empty(),
                p@,
            ).1,
    {
        let mut remover = Self::new();
        visit_program(&mut remover, p)
    }

    /// Rewrites the read of `a` at `i`.
    pub fn select<U: Select<T> + IfElse<T>>(
        &mut self,
        a: ArrayExpression<T>,
        i: FieldElementExpression<T>,
    ) -> (r: U)
        requires
            U::selects_from(a@),
            rewrites(a@, i@),
        ensures
            (final(self)@, r@) == selected::<T, U>(old(self)@, a@, i@),
    {
        match i {
            FieldElementExpression::Number(n) => U::select(a, FieldElementExpression::Number(n)),
            i => {
                let size = a.size();
                let mut in_range = make_index_is(&i, 0);
                let mut index: usize = 1;
                while index < size
                    invariant
                        1 <= index <= size,
                        in_range@ == index_in_range::<T>(i@, index as nat),
                    decreases size - index,
                {
                    in_range = BooleanExpression::Or(
                        Box::new(in_range),
                        Box::new(make_index_is(&i, index)),
                    );
                    index += 1;
                }
                let ghost before = self@;
                let assertion = TypedStatement::Assertion(in_range);
                self.statements.push(assertion);
                assert(self@ =~= before.push(assertion@));
                let mut k: usize = size - 1;
                let last = FieldElementExpression::Number(T::from_usize(k));
                assert(last@ == number::<T>(k as nat));
                let mut res: U = U::select(a.copy(), last);
                while k > 0
                    invariant
                        k < size,
                        size == a@.size,
                        U::selects_from(a@),
                        res@ == selection::<T, U>(a@, i@, k as nat, size as nat),
                    decreases k,
                {
                    k -= 1;
                    let at = FieldElementExpression::Number(T::from_usize(k));
                    assert(at@ == number::<T>(k as nat));
                    res = U::if_else(make_index_is(&i, k), U::select(a.copy(), at), res);
                }
                res
            },
        }
    }
}

impl<T: Field> Folder<T> for VariableReadRemover<T> {
    fn fold_name(&mut self, n: Identifier) -> (r: Identifier) {
        n
    }

    fn enter_variable(&mut self, v: Variable) -> (r: Folded<Variable>) {
        Folded::Recurse(v)
    }

    fn enter_parameter(&mut self, p: Parameter) -> (r: Folded<Parameter>) {
        Folded::Recurse(p)
    }

    fn enter_expression_list(&mut self, es: TypedExpressionList<T>) -> (r: Folded<
        TypedExpressionList<T>,
    >) {
        Folded::Recurse(es)
    }

    fn enter_function(&mut self, fun: TypedFunction<T>) -> (r: Folded<TypedFunction<T>>) {
        Folded::Recurse(fun)
    }

    fn enter_function_symbol(&mut self, s: TypedFunctionSymbol<T>) -> (r: Folded<
        TypedFunctionSymbol<T>,
    >) {
        Folded::Recurse(s)
    }

    fn enter_module(&mut self, m: TypedModule<T>) -> (r: Folded<TypedModule<T>>) {
        Folded::Recurse(m)
    }

    fn enter_program(&mut self, p: TypedProgram<T>) -> (r: Folded<TypedProgram<T>>) {
        Folded::Recurse(p)
    }

    fn enter_assignee(&mut self, a: TypedAssignee<T>) -> (r: Folded<TypedAssignee<T>>) {
        Folded::Recurse(a)
    }

    fn enter_statement(&mut self, s: TypedStatement<T>) -> (r: FoldedStatement<T>) {
        FoldedStatement::Recurse(s)
    }

    fn enter_expression(&mut self, e: TypedExpression<T>) -> (r: Folded<TypedExpression<T>>) {
        Folded::Recurse(e)
    }

    fn enter_uint_expression(&mut self, e: UExpression<T>) -> (r: Folded<UExpression<T>>) {
        Folded::Recurse(e)
    }

    fn enter_array_expression(&mut self, e: ArrayExpression<T>) -> (r: Folded<ArrayExpression<T>>) {
        Folded::Recurse(e)
    }

    fn enter_struct_expression(&mut self, e: StructExpression<T>) -> (r: Folded<
        StructExpression<T>,
    >) {
        Folded::Recurse(e)
    }

    fn enter_field_expression(&mut self, e: FieldElementExpression<T>) -> (r: Folded<
        FieldElementExpression<T>,
    >) {
        Folded::Recurse(e)
    }

    fn enter_boolean_expression(&mut self, e: BooleanExpression<T>) -> (r: Folded<
        BooleanExpression<T>,
    >) {
        Folded::Recurse(e)
    }

    fn enter_uint_expression_inner(&mut self, bitwidth: UBitwidth, e: UExpressionInner<T>) -> (r:
        Folded<UExpressionInner<T>>) {
        Folded::Recurse(e)
    }

    fn enter_array_expression_inner(
        &mut self,
        ty: &Type,
        size: usize,
        e: ArrayExpressionInner<T>,
    ) -> (r: Folded<ArrayExpressionInner<T>>) {
        Folded::Recurse(e)
    }

    fn enter_struct_expression_inner(&mut self, ty: &StructType, e: StructExpressionInner<T>) -> (r:
        Folded<StructExpressionInner<T>>) {
        Folded::Recurse(e)
    }

    fn leave_field_expression(&mut self, e: FieldElementExpression<T>) -> (r:
        FieldElementExpression<T>) {
        match e {
            FieldElementExpression::Select(a, i) => {
                if is_number(&i) || a.size() > 0 {
                    self.select(*a, *i)
                } else {
                    FieldElementExpression::Select(a, i)
                }
            },
            e => e,
        }
    }

    fn leave_boolean_expression(&mut self, e: BooleanExpression<T>) -> (r: BooleanExpression<T>) {
        match e {
            BooleanExpression::Select(a, i) => {
                if is_number(&i) || a.size() > 0 {
                    self.select(*a, *i)
                } else {
                    BooleanExpression::Select(a, i)
                }
            },
            e => e,
        }
    }

    fn leave_uint_expression_inner(&mut self, bitwidth: UBitwidth, e: UExpressionInner<T>) -> (r:
        UExpressionInner<T>) {
        match e {
            UExpressionInner::Select(a, i) => {
                let fits = match a.inner_type() {
                    Type::Uint(_) => true,
                    _ => false,
                };
                if (is_number(&i) || a.size() > 0) && fits {
                    let selected: UExpression<T> = self.select(*a, *i);
                    selected.into_inner()
                } else {
                    UExpressionInner::Select(a, i)
                }
            },
            e => e,
        }
    }

    fn leave_array_expression_inner(
        &mut self,
        ty: &Type,
        size: usize,
        e: ArrayExpressionInner<T>,
    ) -> (r: ArrayExpressionInner<T>) {
        match e {
            ArrayExpressionInner::Select(a, i) => {
                let fits = match a.inner_type() {
                    Type::Array(_) => true,
                    _ => false,
                };
                if (is_number(&i) || a.size() > 0) && fits {
                    let selected: ArrayExpression<T> = self.select(*a, *i);
                    selected.into_inner()
                } else {
                    ArrayExpressionInner::Select(a, i)
                }
            },
            e => e,
        }
    }

    fn leave_struct_expression_inner(&mut self, ty: &StructType, e: StructExpressionInner<T>) -> (r:
        StructExpressionInner<T>) {
        match e {
            StructExpressionInner::Select(a, i) => {
                let fits = match a.inner_type() {
                    Type::Struct(_) => true,
                    _ => false,
                };
                if (is_number(&i) || a.size() > 0) && fits {
                    let selected: StructExpression<T> = self.select(*a, *i);
                    selected.into_inner()
                } else {
                    StructExpressionInner::Select(a, i)
                }
            },
            e => e,
        }
    }

    fn leave_statement(&mut self, folded: Vec<TypedStatement<T>>) -> (r: Vec<TypedStatement<T>>) {
        let mut folded = folded;
        let ghost pending = self@;
        let ghost added = statements_model(&folded);
        let mut out: Vec<TypedStatement<T>> = Vec::new();
        out.append(&mut self.statements);
        out.append(&mut folded);
        assert(statements_model(&out) =~= pending + added);
        assert(self@ =~= Seq::<TypedStatementView>::empty());
        out
    }
}

} // verus!
