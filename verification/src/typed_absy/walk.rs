//! The walk itself: the functions that fold each kind of node of a typed
//! program with a folder.

use vstd::prelude::*;
use crate::field::Field;
use crate::typed_absy::expression::{
    ArrayExpression, ArrayExpressionInner, BooleanExpression, BooleanExpressionView, BooleanOp,
    FieldComparison, FieldElementExpression, FieldElementExpressionView, FieldOp, Shift,
    StructExpression, StructExpressionInner, TypedExpression, TypedExpressionView, UExpression,
    UExpressionInner, UExpressionInnerView, UintOp, expressions_model,
};
use crate::typed_absy::folder::{
    assignee_parts, expression_parts, folded_array_inner, folded_struct_inner, folded_uint_inner,
    expression_list_parts, function_parts, function_symbol_parts, module_parts, parameter_parts,
    program_parts, variable_parts,
    Folded, FolderSpec, array_parts, boolean_parts, field_parts, folded_array, folded_assignee,
    folded_assignees, folded_boolean, folded_expression, folded_expression_list,
    folded_expressions, folded_field, folded_function, folded_function_symbol, folded_module,
    folded_modules, folded_parameter, folded_parameters, folded_program, folded_statement,
    folded_statements, folded_struct, folded_symbols, folded_uint, folded_variable,
    statement_parts, struct_parts, uint_parts,
};
use crate::typed_absy::identifier::Identifier;
use crate::typed_absy::parameter::{Parameter, ParameterView};
use crate::typed_absy::program::{
    TypedAssignee, TypedAssigneeView, TypedExpressionList, TypedFunction, TypedFunctionSymbol,
    TypedFunctionSymbolView, TypedFunctionSymbols, TypedModule, TypedModuleView, TypedProgram,
    TypedStatement, TypedStatementView, assignees_view, modules_view, parameters_view,
    statements_model, symbols_view,
};
use crate::typed_absy::types::{FunctionKey, FunctionKeyView, StructType, Type, UBitwidth};
use crate::typed_absy::variable::Variable;

verus! {

/// What a folder says as a view: the expression it made, if it made one.
pub open spec fn said<X: View>(r: Folded<X>) -> Option<X::V> {
    match r {
        Folded::Done(x) => Some(x@),
        Folded::Recurse(_) => None,
    }
}

/// What a folder says as a view: what it made, or what the walk goes on
/// with.
pub open spec fn answer<X: View>(r: Folded<X>) -> Folded<X::V> {
    match r {
        Folded::Done(x) => Folded::Done(x@),
        Folded::Recurse(x) => Folded::Recurse(x@),
    }
}

/// What a folder says of a statement it is shown: the statements that take
/// its place, or that the walk should go on into its parts.
pub enum FoldedStatement<T> {
    /// The statement becomes these; the walk does not go into its parts.
    Done(Vec<TypedStatement<T>>),
    /// The walk goes on into the parts of the statement, which is handed
    /// back as it came.
    Recurse(TypedStatement<T>),
}

/// What a folder says of a statement, as a view.
pub open spec fn said_statements<T: Field>(r: FoldedStatement<T>) -> Option<
    Seq<TypedStatementView>,
> {
    match r {
        FoldedStatement::Done(list) => Some(statements_model(&list)),
        FoldedStatement::Recurse(_) => None,
    }
}

/// A folder: what to do at each place of the walk. At every kind of node
/// the folder is asked first, and either makes what takes the place of the
/// node, or hands back what the walk goes on with: the node itself where
/// the walk goes into the parts of an expression, an assignee or a
/// statement, and any node of the kind elsewhere. Field, boolean and inner
/// expressions and statements are handed to the folder once more, with
/// their parts folded.
pub trait Folder<T: Field>: FolderSpec {
    fn fold_name(&mut self, n: Identifier) -> (r: Identifier)
        ensures
            (final(self)@, r@) == Self::name_fold(old(self)@, n@),
    ;

    fn enter_field_expression(&mut self, e: FieldElementExpression<T>) -> (r: Folded<
        FieldElementExpression<T>,
    >)
        ensures
            (final(self)@, said(r)) == Self::field_hook(old(self)@, e@),
            r matches Folded::Recurse(x) ==> x == e,
    ;

    fn enter_boolean_expression(&mut self, e: BooleanExpression<T>) -> (r: Folded<
        BooleanExpression<T>,
    >)
        ensures
            (final(self)@, said(r)) == Self::boolean_hook(old(self)@, e@),
            r matches Folded::Recurse(x) ==> x == e,
    ;

    fn enter_uint_expression_inner(&mut self, bitwidth: UBitwidth, e: UExpressionInner<T>) -> (r:
        Folded<UExpressionInner<T>>)
        ensures
            (final(self)@, said(r)) == Self::uint_hook(old(self)@, bitwidth, e@),
            r matches Folded::Recurse(x) ==> x == e,
    ;

    fn enter_array_expression_inner(
        &mut self,
        ty: &Type,
        size: usize,
        e: ArrayExpressionInner<T>,
    ) -> (r: Folded<ArrayExpressionInner<T>>)
        ensures
            (final(self)@, said(r)) == Self::array_hook(old(self)@, ty@, size as nat, e@),
            r matches Folded::Recurse(x) ==> x == e,
    ;

    fn enter_struct_expression_inner(&mut self, ty: &StructType, e: StructExpressionInner<T>) -> (r:
        Folded<StructExpressionInner<T>>)
        ensures
            (final(self)@, said(r)) == Self::struct_hook(old(self)@, ty@, e@),
            r matches Folded::Recurse(x) ==> x == e,
    ;

    fn enter_variable(&mut self, v: Variable) -> (r: Folded<Variable>)
        ensures
            (final(self)@, answer(r)) == Self::variable_hook(old(self)@, v@),
    ;

    fn enter_parameter(&mut self, p: Parameter) -> (r: Folded<Parameter>)
        ensures
            (final(self)@, answer(r)) == Self::parameter_hook(old(self)@, p@),
    ;

    fn enter_expression_list(&mut self, es: TypedExpressionList<T>) -> (r: Folded<
        TypedExpressionList<T>,
    >)
        ensures
            (final(self)@, answer(r)) == Self::expression_list_hook(old(self)@, es@),
    ;

    fn enter_function(&mut self, fun: TypedFunction<T>) -> (r: Folded<TypedFunction<T>>)
        ensures
            (final(self)@, answer(r)) == Self::function_hook(old(self)@, fun@),
    ;

    fn enter_function_symbol(&mut self, s: TypedFunctionSymbol<T>) -> (r: Folded<
        TypedFunctionSymbol<T>,
    >)
        ensures
            (final(self)@, answer(r)) == Self::function_symbol_hook(old(self)@, s@),
    ;

    fn enter_module(&mut self, m: TypedModule<T>) -> (r: Folded<TypedModule<T>>)
        ensures
            (final(self)@, answer(r)) == Self::module_hook(old(self)@, m@),
    ;

    fn enter_program(&mut self, p: TypedProgram<T>) -> (r: Folded<TypedProgram<T>>)
        ensures
            (final(self)@, answer(r)) == Self::program_hook(old(self)@, p@),
    ;

    fn enter_assignee(&mut self, a: TypedAssignee<T>) -> (r: Folded<TypedAssignee<T>>)
        ensures
            (final(self)@, said(r)) == Self::assignee_hook(old(self)@, a@),
            r matches Folded::Recurse(x) ==> x == a,
    ;

    fn enter_statement(&mut self, s: TypedStatement<T>) -> (r: FoldedStatement<T>)
        ensures
            (final(self)@, said_statements(r)) == Self::statement_enter(old(self)@, s@),
            r matches FoldedStatement::Recurse(x) ==> x == s,
    ;

    fn enter_expression(&mut self, e: TypedExpression<T>) -> (r: Folded<TypedExpression<T>>)
        ensures
            (final(self)@, said(r)) == Self::expression_hook(old(self)@, e@),
            r matches Folded::Recurse(x) ==> x == e,
    ;

    fn enter_uint_expression(&mut self, e: UExpression<T>) -> (r: Folded<UExpression<T>>)
        ensures
            (final(self)@, said(r)) == Self::uint_outer_hook(old(self)@, e@),
            r matches Folded::Recurse(x) ==> x == e,
    ;

    fn enter_array_expression(&mut self, e: ArrayExpression<T>) -> (r: Folded<ArrayExpression<T>>)
        ensures
            (final(self)@, said(r)) == Self::array_outer_hook(old(self)@, e@),
            r matches Folded::Recurse(x) ==> x == e,
    ;

    fn enter_struct_expression(&mut self, e: StructExpression<T>) -> (r: Folded<
        StructExpression<T>,
    >)
        ensures
            (final(self)@, said(r)) == Self::struct_outer_hook(old(self)@, e@),
            r matches Folded::Recurse(x) ==> x == e,
    ;

    fn leave_field_expression(&mut self, e: FieldElementExpression<T>) -> (r:
        FieldElementExpression<T>)
        ensures
            (final(self)@, r@) == Self::field_done(old(self)@, e@),
    ;

    fn leave_boolean_expression(&mut self, e: BooleanExpression<T>) -> (r: BooleanExpression<T>)
        ensures
            (final(self)@, r@) == Self::boolean_done(old(self)@, e@),
    ;

    fn leave_uint_expression_inner(&mut self, bitwidth: UBitwidth, e: UExpressionInner<T>) -> (r:
        UExpressionInner<T>)
        ensures
            (final(self)@, r@) == Self::uint_done(old(self)@, bitwidth, e@),
    ;

    fn leave_array_expression_inner(
        &mut self,
        ty: &Type,
        size: usize,
        e: ArrayExpressionInner<T>,
    ) -> (r: ArrayExpressionInner<T>)
        ensures
            (final(self)@, r@) == Self::array_done(old(self)@, ty@, size as nat, e@),
    ;

    fn leave_struct_expression_inner(&mut self, ty: &StructType, e: StructExpressionInner<T>) -> (r:
        StructExpressionInner<T>)
        ensures
            (final(self)@, r@) == Self::struct_done(old(self)@, ty@, e@),
    ;

    fn leave_statement(&mut self, folded: Vec<TypedStatement<T>>) -> (r: Vec<TypedStatement<T>>)
        ensures
            (final(self)@, statements_model(&r)) == Self::statement_hook(
                old(self)@,
                statements_model(&folded),
            ),
    ;
}

/// A field expression taken apart: a binary operation, or anything else.
enum FieldShape<T> {
    Binary(FieldOp, Box<FieldElementExpression<T>>, Box<FieldElementExpression<T>>),
    Other(FieldElementExpression<T>),
}

fn field_shape<T: Field>(e: FieldElementExpression<T>) -> (r: FieldShape<T>)
    ensures
        match r {
            FieldShape::Binary(op, a, b) => e@ == FieldElementExpressionView::Binary(
                op,
                Box::new(a@),
                Box::new(b@),
            ) && decreases_to!(e => a) && decreases_to!(e => b),
            FieldShape::Other(x) => x == e && !(e@ is Binary),
        },
{
    match e {
        FieldElementExpression::Add(a, b) => FieldShape::Binary(FieldOp::Add, a, b),
        FieldElementExpression::Sub(a, b) => FieldShape::Binary(FieldOp::Sub, a, b),
        FieldElementExpression::Mult(a, b) => FieldShape::Binary(FieldOp::Mult, a, b),
        FieldElementExpression::Div(a, b) => FieldShape::Binary(FieldOp::Div, a, b),
        FieldElementExpression::Pow(a, b) => FieldShape::Binary(FieldOp::Pow, a, b),
        other => FieldShape::Other(other),
    }
}

/// A boolean expression taken apart.
enum BooleanShape<T> {
    Compare(FieldComparison, Box<FieldElementExpression<T>>, Box<FieldElementExpression<T>>),
    Binary(BooleanOp, Box<BooleanExpression<T>>, Box<BooleanExpression<T>>),
    Other(BooleanExpression<T>),
}

fn boolean_shape<T: Field>(e: BooleanExpression<T>) -> (r: BooleanShape<T>)
    ensures
        match r {
            BooleanShape::Compare(op, a, b) => e@ == BooleanExpressionView::Compare(
                op,
                Box::new(a@),
                Box::new(b@),
            ) && decreases_to!(e => a) && decreases_to!(e => b),
            BooleanShape::Binary(op, a, b) => e@ == BooleanExpressionView::Binary(
                op,
                Box::new(a@),
                Box::new(b@),
            ) && decreases_to!(e => a) && decreases_to!(e => b),
            BooleanShape::Other(x) => x == e && !(e@ is Compare) && !(e@ is Binary),
        },
{
    match e {
        BooleanExpression::Lt(a, b) => BooleanShape::Compare(FieldComparison::Lt, a, b),
        BooleanExpression::Le(a, b) => BooleanShape::Compare(FieldComparison::Le, a, b),
        BooleanExpression::FieldEq(a, b) => BooleanShape::Compare(FieldComparison::Eq, a, b),
        BooleanExpression::Ge(a, b) => BooleanShape::Compare(FieldComparison::Ge, a, b),
        BooleanExpression::Gt(a, b) => BooleanShape::Compare(FieldComparison::Gt, a, b),
        BooleanExpression::BoolEq(a, b) => BooleanShape::Binary(BooleanOp::Eq, a, b),
        BooleanExpression::Or(a, b) => BooleanShape::Binary(BooleanOp::Or, a, b),
        BooleanExpression::And(a, b) => BooleanShape::Binary(BooleanOp::And, a, b),
        other => BooleanShape::Other(other),
    }
}

fn boolean_binary<T: Field>(op: BooleanOp, a: BooleanExpression<T>, b: BooleanExpression<T>) -> (r:
    BooleanExpression<T>)
    ensures
        r@ == BooleanExpressionView::Binary(op, Box::new(a@), Box::new(b@)),
{
    match op {
        BooleanOp::Eq => BooleanExpression::BoolEq(Box::new(a), Box::new(b)),
        BooleanOp::Or => BooleanExpression::Or(Box::new(a), Box::new(b)),
        BooleanOp::And => BooleanExpression::And(Box::new(a), Box::new(b)),
    }
}

/// An unsigned integer expression taken apart.
enum UintShape<T> {
    Binary(UintOp, Box<UExpression<T>>, Box<UExpression<T>>),
    Shift(Shift, Box<UExpression<T>>, Box<FieldElementExpression<T>>),
    Other(UExpressionInner<T>),
}

fn uint_shape<T: Field>(e: UExpressionInner<T>) -> (r: UintShape<T>)
    ensures
        match r {
            UintShape::Binary(op, a, b) => e@ == UExpressionInnerView::Binary(
                op,
                Box::new(a@),
                Box::new(b@),
            ) && decreases_to!(e => a) && decreases_to!(e => b),
            UintShape::Shift(op, a, by) => e@ == UExpressionInnerView::Shift(
                op,
                Box::new(a@),
                Box::new(by@),
            ) && decreases_to!(e => a) && decreases_to!(e => by),
            UintShape::Other(x) => x == e && !(e@ is Binary) && !(e@ is Shift),
        },
{
    match e {
        UExpressionInner::Add(a, b) => UintShape::Binary(UintOp::Add, a, b),
        UExpressionInner::Sub(a, b) => UintShape::Binary(UintOp::Sub, a, b),
        UExpressionInner::Mult(a, b) => UintShape::Binary(UintOp::Mult, a, b),
        UExpressionInner::Div(a, b) => UintShape::Binary(UintOp::Div, a, b),
        UExpressionInner::Rem(a, b) => UintShape::Binary(UintOp::Rem, a, b),
        UExpressionInner::Xor(a, b) => UintShape::Binary(UintOp::Xor, a, b),
        UExpressionInner::And(a, b) => UintShape::Binary(UintOp::And, a, b),
        UExpressionInner::Or(a, b) => UintShape::Binary(UintOp::Or, a, b),
        UExpressionInner::LeftShift(a, by) => UintShape::Shift(Shift::Left, a, by),
        UExpressionInner::RightShift(a, by) => UintShape::Shift(Shift::Right, a, by),
        other => UintShape::Other(other),
    }
}

fn uint_inner_binary<T: Field>(op: UintOp, a: UExpression<T>, b: UExpression<T>) -> (r:
    UExpressionInner<T>)
    ensures
        r@ == UExpressionInnerView::Binary(op, Box::new(a@), Box::new(b@)),
{
    match op {
        UintOp::Add => UExpressionInner::Add(Box::new(a), Box::new(b)),
        UintOp::Sub => UExpressionInner::Sub(Box::new(a), Box::new(b)),
        UintOp::Mult => UExpressionInner::Mult(Box::new(a), Box::new(b)),
        UintOp::Div => UExpressionInner::Div(Box::new(a), Box::new(b)),
        UintOp::Rem => UExpressionInner::Rem(Box::new(a), Box::new(b)),
        UintOp::Xor => UExpressionInner::Xor(Box::new(a), Box::new(b)),
        UintOp::And => UExpressionInner::And(Box::new(a), Box::new(b)),
        UintOp::Or => UExpressionInner::Or(Box::new(a), Box::new(b)),
    }
}

/// Folds the expressions of a list in order.
pub fn visit_expressions<T: Field, F: Folder<T>>(f: &mut F, list: Vec<TypedExpression<T>>) -> (r:
    Vec<TypedExpression<T>>)
    ensures
        (final(f)@, expressions_model(&r)) == folded_expressions::<F>(
            old(f)@,
            expressions_model(&list),
            list.len() as nat,
        ),
    decreases list, 0nat,
{
    let mut out: Vec<TypedExpression<T>> = Vec::new();
    let ghost all = list;
    let ghost views = expressions_model(&list);
    assert(expressions_model(&out) =~= Seq::<TypedExpressionView>::empty());
    for e in it: list
        invariant
            it.seq() == all@,
            all == list,
            views == expressions_model(&all),
            (f@, expressions_model(&out)) == folded_expressions::<F>(
                old(f)@,
                views,
                it.index() as nat,
            ),
    {
        let ghost before = expressions_model(&out);
        assert(e == all[it.index() as int]);
        assert(views[it.index() as int] == e@);
        assert(decreases_to!(all => all[it.index() as int]));
        let folded = visit_expression(f, e);
        out.push(folded);
        assert(expressions_model(&out) =~= before.push(folded@));
    }
    out
}

/// Folds an expression: the folder is asked first.
pub fn visit_expression<T: Field, F: Folder<T>>(f: &mut F, e: TypedExpression<T>) -> (r:
    TypedExpression<T>)
    ensures
        (final(f)@, r@) == folded_expression::<F>(old(f)@, e@),
    decreases e, 4nat,
{
    match f.enter_expression(e) {
        Folded::Done(r) => r,
        Folded::Recurse(e) => fold_expression(f, e),
    }
}

/// Folds an expression as the kind of expression it is.
pub fn fold_expression<T: Field, F: Folder<T>>(f: &mut F, e: TypedExpression<T>) -> (r:
    TypedExpression<T>)
    ensures
        (final(f)@, r@) == expression_parts::<F>(old(f)@, e@),
    decreases e, 3nat,
{
    match e {
        TypedExpression::FieldElement(e) => TypedExpression::FieldElement(
            visit_field_expression(f, e),
        ),
        TypedExpression::Boolean(e) => TypedExpression::Boolean(visit_boolean_expression(f, e)),
        TypedExpression::Uint(e) => TypedExpression::Uint(visit_uint_expression(f, e)),
        TypedExpression::Array(e) => TypedExpression::Array(visit_array_expression(f, e)),
        TypedExpression::Struct(e) => TypedExpression::Struct(visit_struct_expression(f, e)),
    }
}

/// Folds a field expression: the folder is asked first.
pub fn visit_field_expression<T: Field, F: Folder<T>>(f: &mut F, e: FieldElementExpression<T>) -> (r:
    FieldElementExpression<T>)
    ensures
        (final(f)@, r@) == folded_field::<F>(old(f)@, e@),
    decreases e, 2nat,
{
    match f.enter_field_expression(e) {
        Folded::Done(r) => r,
        Folded::Recurse(e) => {
            let folded = fold_field_expression(f, e);
            f.leave_field_expression(folded)
        },
    }
}

/// Folds the parts of a field expression.
pub fn fold_field_expression<T: Field, F: Folder<T>>(f: &mut F, e: FieldElementExpression<T>) -> (r:
    FieldElementExpression<T>)
    ensures
        (final(f)@, r@) == field_parts::<F>(old(f)@, e@),
    decreases e, 1nat,
{
    match field_shape(e) {
        FieldShape::Binary(op, a, b) => {
            let a = visit_field_expression(f, *a);
            let b = visit_field_expression(f, *b);
            crate::semantics::rules::field_binary(op, a, b)
        },
        FieldShape::Other(other) => match other {
            FieldElementExpression::Number(n) => FieldElementExpression::Number(n),
            FieldElementExpression::Identifier(id) => FieldElementExpression::Identifier(
                f.fold_name(id),
            ),
            FieldElementExpression::IfElse(cond, cons, alt) => {
                let cond = visit_boolean_expression(f, *cond);
                let cons = visit_field_expression(f, *cons);
                let alt = visit_field_expression(f, *alt);
                FieldElementExpression::IfElse(Box::new(cond), Box::new(cons), Box::new(alt))
            },
            FieldElementExpression::FunctionCall(key, exps) => {
                let exps = visit_expressions(f, exps);
                FieldElementExpression::FunctionCall(key, exps)
            },
            FieldElementExpression::Member(s, id) => {
                let s = visit_struct_expression(f, *s);
                FieldElementExpression::Member(Box::new(s), id)
            },
            FieldElementExpression::Select(array, index) => {
                let array = visit_array_expression(f, *array);
                let index = visit_field_expression(f, *index);
                FieldElementExpression::Select(Box::new(array), Box::new(index))
            },
            other => {
                proof {
                    assert(false);
                }
                other
            },
        },
    }
}

/// Folds a boolean expression: the folder is asked first.
pub fn visit_boolean_expression<T: Field, F: Folder<T>>(f: &mut F, e: BooleanExpression<T>) -> (r:
    BooleanExpression<T>)
    ensures
        (final(f)@, r@) == folded_boolean::<F>(old(f)@, e@),
    decreases e, 2nat,
{
    match f.enter_boolean_expression(e) {
        Folded::Done(r) => r,
        Folded::Recurse(e) => {
            let folded = fold_boolean_expression(f, e);
            f.leave_boolean_expression(folded)
        },
    }
}

/// Folds the parts of a boolean expression.
pub fn fold_boolean_expression<T: Field, F: Folder<T>>(f: &mut F, e: BooleanExpression<T>) -> (r:
    BooleanExpression<T>)
    ensures
        (final(f)@, r@) == boolean_parts::<F>(old(f)@, e@),
    decreases e, 1nat,
{
    match boolean_shape(e) {
        BooleanShape::Compare(op, a, b) => {
            let a = visit_field_expression(f, *a);
            let b = visit_field_expression(f, *b);
            crate::semantics::rules::field_comparison(op, a, b)
        },
        BooleanShape::Binary(op, a, b) => {
            let a = visit_boolean_expression(f, *a);
            let b = visit_boolean_expression(f, *b);
            boolean_binary(op, a, b)
        },
        BooleanShape::Other(other) => match other {
            BooleanExpression::Value(v) => BooleanExpression::Value(v),
            BooleanExpression::Identifier(id) => BooleanExpression::Identifier(f.fold_name(id)),
            BooleanExpression::ArrayEq(a, b) => {
                let a = visit_array_expression(f, *a);
                let b = visit_array_expression(f, *b);
                BooleanExpression::ArrayEq(Box::new(a), Box::new(b))
            },
            BooleanExpression::StructEq(a, b) => {
                let a = visit_struct_expression(f, *a);
                let b = visit_struct_expression(f, *b);
                BooleanExpression::StructEq(Box::new(a), Box::new(b))
            },
            BooleanExpression::UintEq(a, b) => {
                let a = visit_uint_expression(f, *a);
                let b = visit_uint_expression(f, *b);
                BooleanExpression::UintEq(Box::new(a), Box::new(b))
            },
            BooleanExpression::Not(e) => {
                let e = visit_boolean_expression(f, *e);
                BooleanExpression::Not(Box::new(e))
            },
            BooleanExpression::FunctionCall(key, exps) => {
                let exps = visit_expressions(f, exps);
                BooleanExpression::FunctionCall(key, exps)
            },
            BooleanExpression::IfElse(cond, cons, alt) => {
                let cond = visit_boolean_expression(f, *cond);
                let cons = visit_boolean_expression(f, *cons);
                let alt = visit_boolean_expression(f, *alt);
                BooleanExpression::IfElse(Box::new(cond), Box::new(cons), Box::new(alt))
            },
            BooleanExpression::Member(s, id) => {
                let s = visit_struct_expression(f, *s);
                BooleanExpression::Member(Box::new(s), id)
            },
            BooleanExpression::Select(array, index) => {
                let array = visit_array_expression(f, *array);
                let index = visit_field_expression(f, *index);
                BooleanExpression::Select(Box::new(array), Box::new(index))
            },
            other => {
                proof {
                    assert(false);
                }
                other
            },
        },
    }
}

/// Folds an unsigned integer expression: the folder is asked first.
pub fn visit_uint_expression<T: Field, F: Folder<T>>(f: &mut F, e: UExpression<T>) -> (r:
    UExpression<T>)
    ensures
        (final(f)@, r@) == folded_uint::<F>(old(f)@, e@),
    decreases e, 4nat,
{
    match f.enter_uint_expression(e) {
        Folded::Done(r) => r,
        Folded::Recurse(e) => fold_uint_expression(f, e),
    }
}

/// Folds an unsigned integer expression: the folder is asked first; the
/// width stays.
pub fn fold_uint_expression<T: Field, F: Folder<T>>(f: &mut F, e: UExpression<T>) -> (r:
    UExpression<T>)
    ensures
        (final(f)@, r@) == folded_uint_inner::<F>(old(f)@, e@),
    decreases e, 3nat,
{
    let bitwidth = e.bitwidth;
    let inner = match f.enter_uint_expression_inner(bitwidth, e.inner) {
        Folded::Done(r) => r,
        Folded::Recurse(inner) => {
            let folded = fold_uint_expression_inner(f, bitwidth, inner);
            f.leave_uint_expression_inner(bitwidth, folded)
        },
    };
    UExpression { bitwidth, inner }
}

/// Folds the parts of an unsigned integer expression of the given width.
pub fn fold_uint_expression_inner<T: Field, F: Folder<T>>(
    f: &mut F,
    bitwidth: UBitwidth,
    e: UExpressionInner<T>,
) -> (r: UExpressionInner<T>)
    ensures
        (final(f)@, r@) == uint_parts::<F>(old(f)@, e@),
    decreases e, 1nat,
{
    match uint_shape(e) {
        UintShape::Binary(op, left, right) => {
            let left = visit_uint_expression(f, *left);
            let right = visit_uint_expression(f, *right);
            uint_inner_binary(op, left, right)
        },
        UintShape::Shift(op, e, by) => {
            let e = visit_uint_expression(f, *e);
            let by = visit_field_expression(f, *by);
            match op {
                Shift::Left => UExpressionInner::LeftShift(Box::new(e), Box::new(by)),
                Shift::Right => UExpressionInner::RightShift(Box::new(e), Box::new(by)),
            }
        },
        UintShape::Other(other) => match other {
            UExpressionInner::Value(v) => UExpressionInner::Value(v),
            UExpressionInner::Identifier(id) => UExpressionInner::Identifier(f.fold_name(id)),
            UExpressionInner::Not(e) => {
                let e = visit_uint_expression(f, *e);
                UExpressionInner::Not(Box::new(e))
            },
            UExpressionInner::FunctionCall(key, exps) => {
                let exps = visit_expressions(f, exps);
                UExpressionInner::FunctionCall(key, exps)
            },
            UExpressionInner::Select(array, index) => {
                let array = visit_array_expression(f, *array);
                let index = visit_field_expression(f, *index);
                UExpressionInner::Select(Box::new(array), Box::new(index))
            },
            UExpressionInner::IfElse(cond, cons, alt) => {
                let cond = visit_boolean_expression(f, *cond);
                let cons = visit_uint_expression(f, *cons);
                let alt = visit_uint_expression(f, *alt);
                UExpressionInner::IfElse(Box::new(cond), Box::new(cons), Box::new(alt))
            },
            UExpressionInner::Member(s, id) => {
                let s = visit_struct_expression(f, *s);
                UExpressionInner::Member(Box::new(s), id)
            },
            other => {
                proof {
                    assert(false);
                }
                other
            },
        },
    }
}

/// Folds an array expression: the folder is asked first.
pub fn visit_array_expression<T: Field, F: Folder<T>>(f: &mut F, e: ArrayExpression<T>) -> (r:
    ArrayExpression<T>)
    ensures
        (final(f)@, r@) == folded_array::<F>(old(f)@, e@),
    decreases e, 4nat,
{
    match f.enter_array_expression(e) {
        Folded::Done(r) => r,
        Folded::Recurse(e) => fold_array_expression(f, e),
    }
}

/// Folds an array expression: the folder is asked first; the size and the
/// element type stay.
pub fn fold_array_expression<T: Field, F: Folder<T>>(f: &mut F, e: ArrayExpression<T>) -> (r:
    ArrayExpression<T>)
    ensures
        (final(f)@, r@) == folded_array_inner::<F>(old(f)@, e@),
    decreases e, 3nat,
{
    let size = e.size;
    let ty = e.ty;
    let inner = match f.enter_array_expression_inner(&ty, size, e.inner) {
        Folded::Done(r) => r,
        Folded::Recurse(inner) => {
            let folded = fold_array_expression_inner(f, &ty, size, inner);
            f.leave_array_expression_inner(&ty, size, folded)
        },
    };
    ArrayExpression { size, ty, inner }
}

/// Folds the parts of an array expression.
pub fn fold_array_expression_inner<T: Field, F: Folder<T>>(
    f: &mut F,
    ty: &Type,
    size: usize,
    e: ArrayExpressionInner<T>,
) -> (r: ArrayExpressionInner<T>)
    ensures
        (final(f)@, r@) == array_parts::<F>(old(f)@, e@),
    decreases e, 1nat,
{
    match e {
        ArrayExpressionInner::Identifier(id) => ArrayExpressionInner::Identifier(f.fold_name(id)),
        ArrayExpressionInner::Value(exprs) => ArrayExpressionInner::Value(
            visit_expressions(f, exprs),
        ),
        ArrayExpressionInner::FunctionCall(id, exps) => {
            let exps = visit_expressions(f, exps);
            ArrayExpressionInner::FunctionCall(id, exps)
        },
        ArrayExpressionInner::IfElse(condition, consequence, alternative) => {
            let condition = visit_boolean_expression(f, *condition);
            let consequence = visit_array_expression(f, *consequence);
            let alternative = visit_array_expression(f, *alternative);
            ArrayExpressionInner::IfElse(
                Box::new(condition),
                Box::new(consequence),
                Box::new(alternative),
            )
        },
        ArrayExpressionInner::Member(s, id) => {
            let s = visit_struct_expression(f, *s);
            ArrayExpressionInner::Member(Box::new(s), id)
        },
        ArrayExpressionInner::Select(array, index) => {
            let array = visit_array_expression(f, *array);
            let index = visit_field_expression(f, *index);
            ArrayExpressionInner::Select(Box::new(array), Box::new(index))
        },
    }
}

/// Folds a struct expression: the folder is asked first.
pub fn visit_struct_expression<T: Field, F: Folder<T>>(f: &mut F, e: StructExpression<T>) -> (r:
    StructExpression<T>)
    ensures
        (final(f)@, r@) == folded_struct::<F>(old(f)@, e@),
    decreases e, 4nat,
{
    match f.enter_struct_expression(e) {
        Folded::Done(r) => r,
        Folded::Recurse(e) => fold_struct_expression(f, e),
    }
}

/// Folds a struct expression: the folder is asked first; the type stays.
pub fn fold_struct_expression<T: Field, F: Folder<T>>(f: &mut F, e: StructExpression<T>) -> (r:
    StructExpression<T>)
    ensures
        (final(f)@, r@) == folded_struct_inner::<F>(old(f)@, e@),
    decreases e, 3nat,
{
    let ty = e.ty;
    let inner = match f.enter_struct_expression_inner(&ty, e.inner) {
        Folded::Done(r) => r,
        Folded::Recurse(inner) => {
            let folded = fold_struct_expression_inner(f, &ty, inner);
            f.leave_struct_expression_inner(&ty, folded)
        },
    };
    StructExpression { ty, inner }
}

/// Folds the parts of a struct expression.
pub fn fold_struct_expression_inner<T: Field, F: Folder<T>>(
    f: &mut F,
    ty: &StructType,
    e: StructExpressionInner<T>,
) -> (r: StructExpressionInner<T>)
    ensures
        (final(f)@, r@) == struct_parts::<F>(old(f)@, e@),
    decreases e, 1nat,
{
    match e {
        StructExpressionInner::Identifier(id) => StructExpressionInner::Identifier(
            f.fold_name(id),
        ),
        StructExpressionInner::Value(exprs) => StructExpressionInner::Value(
            visit_expressions(f, exprs),
        ),
        StructExpressionInner::FunctionCall(id, exps) => {
            let exps = visit_expressions(f, exps);
            StructExpressionInner::FunctionCall(id, exps)
        },
        StructExpressionInner::IfElse(condition, consequence, alternative) => {
            let condition = visit_boolean_expression(f, *condition);
            let consequence = visit_struct_expression(f, *consequence);
            let alternative = visit_struct_expression(f, *alternative);
            StructExpressionInner::IfElse(
                Box::new(condition),
                Box::new(consequence),
                Box::new(alternative),
            )
        },
        StructExpressionInner::Member(s, id) => {
            let s = visit_struct_expression(f, *s);
            StructExpressionInner::Member(Box::new(s), id)
        },
        StructExpressionInner::Select(array, index) => {
            let array = visit_array_expression(f, *array);
            let index = visit_field_expression(f, *index);
            StructExpressionInner::Select(Box::new(array), Box::new(index))
        },
    }
}

/// Folds a variable: the folder is asked first.
pub fn visit_variable<T: Field, F: Folder<T>>(f: &mut F, v: Variable) -> (r: Variable)
    ensures
        (final(f)@, r@) == folded_variable::<F>(old(f)@, v@),
{
    match f.enter_variable(v) {
        Folded::Done(r) => r,
        Folded::Recurse(v) => fold_variable(f, v),
    }
}

/// Folds a variable: its name is folded, its type stays.
pub fn fold_variable<T: Field, F: Folder<T>>(f: &mut F, v: Variable) -> (r: Variable)
    ensures
        (final(f)@, r@) == variable_parts::<F>(old(f)@, v@),
{
    Variable { id: f.fold_name(v.id), _type: v._type }
}

/// Folds a parameter: the folder is asked first.
pub fn visit_parameter<T: Field, F: Folder<T>>(f: &mut F, p: Parameter) -> (r: Parameter)
    ensures
        (final(f)@, r@) == folded_parameter::<F>(old(f)@, p@),
{
    match f.enter_parameter(p) {
        Folded::Done(r) => r,
        Folded::Recurse(p) => fold_parameter(f, p),
    }
}

/// Folds a parameter: its variable is folded.
pub fn fold_parameter<T: Field, F: Folder<T>>(f: &mut F, p: Parameter) -> (r: Parameter)
    ensures
        (final(f)@, r@) == parameter_parts::<F>(old(f)@, p@),
{
    Parameter { id: visit_variable(f, p.id), private: p.private }
}

/// Folds an assignee: the folder is asked first.
pub fn visit_assignee<T: Field, F: Folder<T>>(f: &mut F, a: TypedAssignee<T>) -> (r:
    TypedAssignee<T>)
    ensures
        (final(f)@, r@) == folded_assignee::<F>(old(f)@, a@),
    decreases a, 1nat,
{
    match f.enter_assignee(a) {
        Folded::Done(r) => r,
        Folded::Recurse(a) => fold_assignee(f, a),
    }
}

/// Folds an assignee.
pub fn fold_assignee<T: Field, F: Folder<T>>(f: &mut F, a: TypedAssignee<T>) -> (r: TypedAssignee<
    T,
>)
    ensures
        (final(f)@, r@) == assignee_parts::<F>(old(f)@, a@),
    decreases a, 0nat,
{
    match a {
        TypedAssignee::Identifier(v) => TypedAssignee::Identifier(visit_variable(f, v)),
        TypedAssignee::Select(a, index) => {
            let a = visit_assignee(f, *a);
            let index = visit_field_expression(f, *index);
            TypedAssignee::Select(Box::new(a), Box::new(index))
        },
        TypedAssignee::Member(s, m) => {
            let s = visit_assignee(f, *s);
            TypedAssignee::Member(Box::new(s), m)
        },
    }
}

/// Folds the assignees of a list in order.
fn fold_assignees<T: Field, F: Folder<T>>(f: &mut F, list: Vec<TypedAssignee<T>>) -> (r: Vec<
    TypedAssignee<T>,
>)
    ensures
        (final(f)@, assignees_view(r@)) == folded_assignees::<F>(
            old(f)@,
            assignees_view(list@),
            list.len() as nat,
        ),
{
    let mut out: Vec<TypedAssignee<T>> = Vec::new();
    let ghost all = list;
    let ghost views = assignees_view(list@);
    assert(assignees_view(out@) =~= Seq::<TypedAssigneeView>::empty());
    for a in it: list
        invariant
            it.seq() == all@,
            views == assignees_view(all@),
            (f@, assignees_view(out@)) == folded_assignees::<F>(
                old(f)@,
                views,
                it.index() as nat,
            ),
    {
        let ghost before = assignees_view(out@);
        assert(a == all[it.index() as int]);
        assert(views[it.index() as int] == a@);
        let folded = visit_assignee(f, a);
        out.push(folded);
        assert(assignees_view(out@) =~= before.push(folded@));
    }
    out
}

/// Folds a call that returns several values: the folder is asked first.
pub fn visit_expression_list<T: Field, F: Folder<T>>(f: &mut F, es: TypedExpressionList<T>) -> (r:
    TypedExpressionList<T>)
    ensures
        (final(f)@, r@) == folded_expression_list::<F>(old(f)@, es@),
{
    match f.enter_expression_list(es) {
        Folded::Done(r) => r,
        Folded::Recurse(es) => fold_expression_list(f, es),
    }
}

/// Folds a call that returns several values: its arguments are folded.
pub fn fold_expression_list<T: Field, F: Folder<T>>(f: &mut F, es: TypedExpressionList<T>) -> (r:
    TypedExpressionList<T>)
    ensures
        (final(f)@, r@) == expression_list_parts::<F>(old(f)@, es@),
{
    match es {
        TypedExpressionList::FunctionCall(id, arguments, types) => {
            TypedExpressionList::FunctionCall(id, visit_expressions(f, arguments), types)
        },
    }
}

/// Folds the statements of a list in order; what each becomes comes one
/// after the other.
pub fn visit_statements<T: Field, F: Folder<T>>(f: &mut F, list: Vec<TypedStatement<T>>) -> (r:
    Vec<TypedStatement<T>>)
    ensures
        (final(f)@, statements_model(&r)) == folded_statements::<F>(
            old(f)@,
            statements_model(&list),
            list.len() as nat,
        ),
    decreases list, 0nat,
{
    let mut out: Vec<TypedStatement<T>> = Vec::new();
    let ghost all = list;
    let ghost views = statements_model(&list);
    assert(statements_model(&out) =~= Seq::<TypedStatementView>::empty());
    for s in it: list
        invariant
            it.seq() == all@,
            all == list,
            views == statements_model(&all),
            (f@, statements_model(&out)) == folded_statements::<F>(
                old(f)@,
                views,
                it.index() as nat,
            ),
    {
        let ghost before = statements_model(&out);
        assert(s == all[it.index() as int]);
        assert(views[it.index() as int] == s@);
        assert(decreases_to!(all => all[it.index() as int]));
        let mut folded = visit_statement(f, s);
        let ghost added = statements_model(&folded);
        out.append(&mut folded);
        assert(statements_model(&out) =~= before + added);
    }
    out
}

/// Folds a statement: the folder is asked first; else the parts of the
/// statement are folded, and the folder is handed the result, of which it
/// can make several statements.
pub fn visit_statement<T: Field, F: Folder<T>>(f: &mut F, s: TypedStatement<T>) -> (r: Vec<
    TypedStatement<T>,
>)
    ensures
        (final(f)@, statements_model(&r)) == folded_statement::<F>(old(f)@, s@),
    decreases s, 2nat,
{
    match f.enter_statement(s) {
        FoldedStatement::Done(r) => r,
        FoldedStatement::Recurse(s) => {
            let folded = fold_statement(f, s);
            f.leave_statement(folded)
        },
    }
}

/// Folds the parts of a statement. The bounds of a loop stay as they are.
pub fn fold_statement<T: Field, F: Folder<T>>(f: &mut F, s: TypedStatement<T>) -> (r: Vec<
    TypedStatement<T>,
>)
    ensures
        r.len() == 1,
        (final(f)@, r[0]@) == statement_parts::<F>(old(f)@, s@),
        statements_model(&r) == seq![r[0]@],
    decreases s, 1nat,
{
    let res = match s {
        TypedStatement::Return(expressions) => TypedStatement::Return(
            visit_expressions(f, expressions),
        ),
        TypedStatement::Definition(a, e) => {
            let a = visit_assignee(f, a);
            let e = visit_expression(f, e);
            TypedStatement::Definition(a, e)
        },
        TypedStatement::Declaration(v) => TypedStatement::Declaration(visit_variable(f, v)),
        TypedStatement::Assertion(e) => TypedStatement::Assertion(
            visit_boolean_expression(f, e),
        ),
        TypedStatement::For(v, from, to, statements) => {
            let v = visit_variable(f, v);
            let statements = visit_statements(f, statements);
            TypedStatement::For(v, from, to, statements)
        },
        TypedStatement::MultipleDefinition(assignees, elist) => {
            let assignees = fold_assignees(f, assignees);
            let elist = visit_expression_list(f, elist);
            TypedStatement::MultipleDefinition(assignees, elist)
        },
    };
    let mut out: Vec<TypedStatement<T>> = Vec::new();
    out.push(res);
    assert(statements_model(&out) =~= seq![res@]);
    out
}

/// Folds the parameters of a list in order.
fn fold_parameters<T: Field, F: Folder<T>>(f: &mut F, list: Vec<Parameter>) -> (r: Vec<Parameter>)
    ensures
        (final(f)@, parameters_view(r@)) == folded_parameters::<F>(
            old(f)@,
            parameters_view(list@),
            list.len() as nat,
        ),
{
    let mut out: Vec<Parameter> = Vec::new();
    let ghost all = list;
    let ghost views = parameters_view(list@);
    assert(parameters_view(out@) =~= Seq::<ParameterView>::empty());
    for p in it: list
        invariant
            it.seq() == all@,
            views == parameters_view(all@),
            (f@, parameters_view(out@)) == folded_parameters::<F>(
                old(f)@,
                views,
                it.index() as nat,
            ),
    {
        let ghost before = parameters_view(out@);
        assert(p == all[it.index() as int]);
        assert(views[it.index() as int] == p@);
        let folded = visit_parameter(f, p);
        out.push(folded);
        assert(parameters_view(out@) =~= before.push(folded@));
    }
    out
}

/// Folds a function: the folder is asked first.
pub fn visit_function<T: Field, F: Folder<T>>(f: &mut F, fun: TypedFunction<T>) -> (r:
    TypedFunction<T>)
    ensures
        (final(f)@, r@) == folded_function::<F>(old(f)@, fun@),
{
    match f.enter_function(fun) {
        Folded::Done(r) => r,
        Folded::Recurse(fun) => fold_function(f, fun),
    }
}

/// Folds a function: its parameters and its statements; its signature
/// stays.
pub fn fold_function<T: Field, F: Folder<T>>(f: &mut F, fun: TypedFunction<T>) -> (r:
    TypedFunction<T>)
    ensures
        (final(f)@, r@) == function_parts::<F>(old(f)@, fun@),
{
    let arguments = fold_parameters(f, fun.arguments);
    let statements = visit_statements(f, fun.statements);
    TypedFunction { arguments, statements, signature: fun.signature }
}

/// Folds a function symbol: the folder is asked first. It can hand back
/// another symbol for the walk to go on with, such as the function that an
/// import stands for.
pub fn visit_function_symbol<T: Field, F: Folder<T>>(f: &mut F, s: TypedFunctionSymbol<T>) -> (r:
    TypedFunctionSymbol<T>)
    ensures
        (final(f)@, r@) == folded_function_symbol::<F>(old(f)@, s@),
{
    match f.enter_function_symbol(s) {
        Folded::Done(r) => r,
        Folded::Recurse(s) => fold_function_symbol(f, s),
    }
}

/// Folds a function symbol: a function of the module is folded; a function
/// of another module and a built-in gadget stay.
pub fn fold_function_symbol<T: Field, F: Folder<T>>(f: &mut F, s: TypedFunctionSymbol<T>) -> (r:
    TypedFunctionSymbol<T>)
    ensures
        (final(f)@, r@) == function_symbol_parts::<F>(old(f)@, s@),
{
    match s {
        TypedFunctionSymbol::Here(fun) => TypedFunctionSymbol::Here(visit_function(f, fun)),
        there => there,
    }
}

/// Folds a module: the folder is asked first.
pub fn visit_module<T: Field, F: Folder<T>>(f: &mut F, p: TypedModule<T>) -> (r: TypedModule<T>)
    ensures
        (final(f)@, r@) == folded_module::<F>(old(f)@, p@),
{
    match f.enter_module(p) {
        Folded::Done(r) => r,
        Folded::Recurse(p) => fold_module(f, p),
    }
}

/// Folds a module: each of its function symbols, under the key it has.
pub fn fold_module<T: Field, F: Folder<T>>(f: &mut F, p: TypedModule<T>) -> (r: TypedModule<T>)
    ensures
        (final(f)@, r@) == module_parts::<F>(old(f)@, p@),
        p.functions.wf() ==> r.functions.wf(),
{
    let mut out: Vec<(FunctionKey, TypedFunctionSymbol<T>)> = Vec::new();
    let ghost all = p.functions.entries;
    let ghost views = symbols_view(all@);
    assert(symbols_view(out@) =~= Seq::<(FunctionKeyView, TypedFunctionSymbolView)>::empty());
    for entry in it: p.functions.entries
        invariant
            it.seq() == all@,
            views == symbols_view(all@),
            out.len() == it.index(),
            forall|i: int| 0 <= i < out.len() ==> (#[trigger] out[i]).0 == all[i].0,
            (f@, symbols_view(out@)) == folded_symbols::<F>(old(f)@, views, it.index() as nat),
    {
        let ghost before = symbols_view(out@);
        assert(entry == all[it.index() as int]);
        assert(views[it.index() as int] == (entry.0@, entry.1@));
        let (key, symbol) = entry;
        let folded = visit_function_symbol(f, symbol);
        out.push((key, folded));
        assert(symbols_view(out@) =~= before.push((key@, folded@)));
    }
    TypedModule { functions: TypedFunctionSymbols { entries: out } }
}

/// Folds a program: the folder is asked first.
pub fn visit_program<T: Field, F: Folder<T>>(f: &mut F, p: TypedProgram<T>) -> (r: TypedProgram<T>)
    ensures
        (final(f)@, r@) == folded_program::<F>(old(f)@, p@),
{
    match f.enter_program(p) {
        Folded::Done(r) => r,
        Folded::Recurse(p) => fold_program(f, p),
    }
}

/// Folds a program: each of its modules, under what identifies it.
pub fn fold_program<T: Field, F: Folder<T>>(f: &mut F, p: TypedProgram<T>) -> (r: TypedProgram<T>)
    ensures
        (final(f)@, r@) == program_parts::<F>(old(f)@, p@),
{
    let mut out: Vec<(String, TypedModule<T>)> = Vec::new();
    let ghost all = p.modules.entries;
    let ghost views = modules_view(all@);
    assert(modules_view(out@) =~= Seq::<(Seq<char>, TypedModuleView)>::empty());
    for entry in it: p.modules.entries
        invariant
            it.seq() == all@,
            views == modules_view(all@),
            (f@, modules_view(out@)) == folded_modules::<F>(old(f)@, views, it.index() as nat),
    {
        let ghost before = modules_view(out@);
        assert(entry == all[it.index() as int]);
        assert(views[it.index() as int] == (entry.0@, entry.1@));
        let (module_id, module) = entry;
        let folded = visit_module(f, module);
        out.push((module_id, folded));
        assert(modules_view(out@) =~= before.push((module_id@, folded@)));
    }
    TypedProgram { modules: crate::collections::StringMap { entries: out }, main: p.main }
}

} // verus!
