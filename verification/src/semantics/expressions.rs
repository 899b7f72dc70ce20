//! Checking expressions and assignees.

use vstd::prelude::*;
use crate::absy::{Expression, ExpressionNode, Identifier, RangeOrExpression, SpreadOrExpression};
use crate::field::Field;
use crate::typed_absy::typed::Typed;
use crate::parser::Position;
use crate::semantics::messages::{error_at, make_error, result_view};
use crate::semantics::query::{FunctionQuery, lemma_first_match};
use crate::semantics::rules::{
    BinaryOperator, make_call, make_identifier, make_member, make_select, type_binary,
    type_if_else, type_not, type_to_string,
};
use crate::semantics::scope::Checker;
use crate::semantics::typing::{
    bound_not_constant, bound_out_of_array, call_query, checked_elements, checked_expression,
    checked_expressions, checked_members, checked_spread_or_expression, first_of_other_type,
    last_named, member_not_found, member_of_other_type, named_before, number, slice_elements,
    typed_call, typed_inline_array, typed_member, typed_select, typed_slice, typed_spread,
};
use crate::semantics::{
    ErrorInner, ErrorInnerView, TypeMap, TypesView, declared_type, structs_only,
};
use crate::text::usize_to_dec;
use crate::typed_absy::expression::{
    ArrayExpression, ArrayExpressionInner, BooleanExpression, FieldElementExpression,
    StructExpressionInner, TypedExpression, TypedExpressionView, UExpressionInner,
    expression_types, expressions_model,
};
use crate::typed_absy::types::{
    StructType, Type, TypeView, UBitwidth, types_view,
};

verus! {

/// Whether `e` is the binary operation `op` on `a` and `b`.
pub open spec fn is_binary(
    e: Expression,
    op: BinaryOperator,
    a: Box<ExpressionNode>,
    b: Box<ExpressionNode>,
) -> bool {
    match op {
        BinaryOperator::Add => e == Expression::Add(a, b),
        BinaryOperator::Sub => e == Expression::Sub(a, b),
        BinaryOperator::Mult => e == Expression::Mult(a, b),
        BinaryOperator::Div => e == Expression::Div(a, b),
        BinaryOperator::Rem => e == Expression::Rem(a, b),
        BinaryOperator::Pow => e == Expression::Pow(a, b),
        BinaryOperator::Lt => e == Expression::Lt(a, b),
        BinaryOperator::Le => e == Expression::Le(a, b),
        BinaryOperator::Eq => e == Expression::Eq(a, b),
        BinaryOperator::Ge => e == Expression::Ge(a, b),
        BinaryOperator::Gt => e == Expression::Gt(a, b),
        BinaryOperator::And => e == Expression::And(a, b),
        BinaryOperator::Or => e == Expression::Or(a, b),
        BinaryOperator::LeftShift => e == Expression::LeftShift(a, b),
        BinaryOperator::RightShift => e == Expression::RightShift(a, b),
        BinaryOperator::BitOr => e == Expression::BitOr(a, b),
        BinaryOperator::BitAnd => e == Expression::BitAnd(a, b),
        BinaryOperator::BitXor => e == Expression::BitXor(a, b),
    }
}

/// Whether `e` is a binary operation.
pub open spec fn binary(e: Expression) -> bool {
    e is Add || e is Sub || e is Mult || e is Div || e is Rem || e is Pow || e is Lt || e is Le
        || e is Eq || e is Ge || e is Gt || e is And || e is Or || e is LeftShift
        || e is RightShift || e is BitOr || e is BitAnd || e is BitXor
}

/// Takes a binary operation apart; any other expression comes back as it
/// is.
fn split_binary(e: Expression) -> (r: Result<
    (BinaryOperator, Box<ExpressionNode>, Box<ExpressionNode>),
    Expression,
>)
    ensures
        match r {
            Ok((op, a, b)) => is_binary(e, op, a, b) && decreases_to!(e => a) && decreases_to!(e => b),
            Err(other) => other == e && !binary(e),
        },
{
    match e {
        Expression::Add(a, b) => Ok((BinaryOperator::Add, a, b)),
        Expression::Sub(a, b) => Ok((BinaryOperator::Sub, a, b)),
        Expression::Mult(a, b) => Ok((BinaryOperator::Mult, a, b)),
        Expression::Div(a, b) => Ok((BinaryOperator::Div, a, b)),
        Expression::Rem(a, b) => Ok((BinaryOperator::Rem, a, b)),
        Expression::Pow(a, b) => Ok((BinaryOperator::Pow, a, b)),
        Expression::Lt(a, b) => Ok((BinaryOperator::Lt, a, b)),
        Expression::Le(a, b) => Ok((BinaryOperator::Le, a, b)),
        Expression::Eq(a, b) => Ok((BinaryOperator::Eq, a, b)),
        Expression::Ge(a, b) => Ok((BinaryOperator::Ge, a, b)),
        Expression::Gt(a, b) => Ok((BinaryOperator::Gt, a, b)),
        Expression::And(a, b) => Ok((BinaryOperator::And, a, b)),
        Expression::Or(a, b) => Ok((BinaryOperator::Or, a, b)),
        Expression::LeftShift(a, b) => Ok((BinaryOperator::LeftShift, a, b)),
        Expression::RightShift(a, b) => Ok((BinaryOperator::RightShift, a, b)),
        Expression::BitOr(a, b) => Ok((BinaryOperator::BitOr, a, b)),
        Expression::BitAnd(a, b) => Ok((BinaryOperator::BitAnd, a, b)),
        Expression::BitXor(a, b) => Ok((BinaryOperator::BitXor, a, b)),
        other => Err(other),
    }
}

/// The types of a list of typed expressions.
fn types_of<T: Field>(list: &Vec<TypedExpression<T>>) -> (r: Vec<Type>)
    ensures
        types_view(r@) == expression_types(expressions_model(list)),
{
    let mut out: Vec<Type> = Vec::new();
    let mut i: usize = 0;
    while i < list.len()
        invariant
            i <= list.len(),
            out.len() == i,
            forall|j: int| 0 <= j < i ==> out[j]@ == list[j]@.get_type(),
        decreases list.len() - i,
    {
        out.push(list[i].get_type());
        i += 1;
    }
    assert(types_view(out@) =~= expression_types(expressions_model(list)));
    out
}

/// The rule for a call outside a definition.
fn type_call<T: Field>(
    checker: &Checker,
    pos: (Position, Position),
    name: String,
    arguments: Vec<TypedExpression<T>>,
) -> (r: Result<TypedExpression<T>, ErrorInner>)
    ensures
        result_view(r) == typed_call(checker@, pos, name@, expressions_model(&arguments)),
{
    let arguments_types = types_of(&arguments);
    let mut hints: Vec<Option<Type>> = Vec::new();
    hints.push(None);
    let query = FunctionQuery::new(name.as_str(), &arguments_types, &hints);
    assert(query@.outputs =~= seq![None]);
    assert(query@ == call_query(name@, expressions_model(&arguments)));
    match checker.find_function(&query) {
        Some(f) => {
            proof {
                lemma_first_match(query@, checker@.functions);
            }
            let ty = f.signature.outputs[0].clone();
            Ok(make_call(f, arguments, ty))
        },
        None => {
            let mut s = String::from_str("Function definition for function ");
            s.append(name.as_str());
            s.append(" with signature ");
            s.append(query.to_string().as_str());
            s.append(" not found.");
            Err(make_error(pos, s))
        },
    }
}

/// The elements of `array` from `from` up to `to`, each selected by its
/// index.
fn make_slice_elements<T: Field>(array: &ArrayExpression<T>, from: usize, to: usize) -> (r: Vec<
    TypedExpression<T>,
>)
    requires
        from <= to,
    ensures
        expressions_model(&r) == slice_elements::<T>(array@, from as nat, to as nat),
{
    let mut out: Vec<TypedExpression<T>> = Vec::new();
    let mut i: usize = from;
    while i < to
        invariant
            from <= i <= to,
            out.len() == i - from,
            forall|j: int|
                0 <= j < out.len() ==> out[j]@ == crate::typed_absy::typed::select_view(
                    array@,
                    number::<T>((from + j) as nat),
                ),
        decreases to - i,
    {
        let index = FieldElementExpression::Number(T::from_usize(i));
        out.push(make_select(array.copy(), index));
        i += 1;
    }
    assert(expressions_model(&out) =~= slice_elements::<T>(array@, from as nat, to as nat));
    out
}

fn bound_not_constant_error<T: Field>(
    pos: (Position, Position),
    which: &str,
    bound: &TypedExpression<T>,
) -> (r: ErrorInner)
    ensures
        r@ == error_at(pos, bound_not_constant(which@, bound@)),
{
    let mut s = String::from_str("Expected the ");
    s.append(which);
    s.append(" bound of the range to be a constant field, found ");
    s.append(bound.to_string().as_str());
    make_error(pos, s)
}

fn bound_out_of_array_error<T: Field>(
    pos: (Position, Position),
    which: &str,
    bound: &T,
    size: usize,
) -> (r: ErrorInner)
    ensures
        r@ == error_at(pos, bound_out_of_array(which@, bound.value(), size as nat)),
{
    let mut s = String::from_str(which);
    s.append(" range bound ");
    s.append(bound.to_dec_string().as_str());
    s.append(" is out of array bounds [0, ");
    s.append(usize_to_dec(size).as_str());
    s.append("]");
    make_error(pos, s)
}

/// The rule for a slice.
fn type_slice<T: Field>(
    pos: (Position, Position),
    array: ArrayExpression<T>,
    from: TypedExpression<T>,
    to: TypedExpression<T>,
) -> (r: Result<TypedExpression<T>, ErrorInner>)
    ensures
        result_view(r) == typed_slice::<T>(pos, array@, from@, to@),
{
    let f = match from {
        TypedExpression::FieldElement(FieldElementExpression::Number(n)) => n,
        e => {
            return Err(bound_not_constant_error(pos, "lower", &e));
        },
    };
    let t = match to {
        TypedExpression::FieldElement(FieldElementExpression::Number(n)) => n,
        e => {
            return Err(bound_not_constant_error(pos, "higher", &e));
        },
    };
    let size = array.size();
    let from_index = match f.to_usize() {
        Some(i) => i,
        None => {
            return Err(bound_out_of_array_error(pos, "Lower", &f, size));
        },
    };
    if from_index > size {
        return Err(bound_out_of_array_error(pos, "Lower", &f, size));
    }
    let to_index = match t.to_usize() {
        Some(i) => i,
        None => {
            return Err(bound_out_of_array_error(pos, "Higher", &t, size));
        },
    };
    if to_index > size {
        return Err(bound_out_of_array_error(pos, "Higher", &t, size));
    }
    if from_index > to_index {
        let mut s = String::from_str("Lower range bound ");
        s.append(f.to_dec_string().as_str());
        s.append(" is larger than higher range bound ");
        s.append(t.to_dec_string().as_str());
        return Err(make_error(pos, s));
    }
    let elements = make_slice_elements(&array, from_index, to_index);
    let inner_type = array.inner_type().clone();
    Ok(
        TypedExpression::Array(
            ArrayExpressionInner::Value(elements).annotate(inner_type, to_index - from_index),
        ),
    )
}

/// The rule for an element of an array.
fn type_select<T: Field>(
    pos: (Position, Position),
    array: TypedExpression<T>,
    index: TypedExpression<T>,
) -> (r: Result<TypedExpression<T>, ErrorInner>)
    ensures
        result_view(r) == typed_select(pos, array@, index@),
{
    match (array, index) {
        (TypedExpression::Array(a), TypedExpression::FieldElement(i)) => Ok(make_select(a, i)),
        (a, e) => {
            let mut s = String::from_str("Cannot access element ");
            s.append(e.to_string().as_str());
            s.append(" on expression of type ");
            s.append(type_to_string(&a).as_str());
            Err(make_error(pos, s))
        },
    }
}

/// The rule for a member of a struct.
fn type_member<T: Field>(pos: (Position, Position), s: TypedExpression<T>, id: String) -> (r:
    Result<TypedExpression<T>, ErrorInner>)
    ensures
        result_view(r) == typed_member(pos, s@, id@),
{
    match s {
        TypedExpression::Struct(e) => {
            let found = match e.ty().find_member(id.as_str()) {
                Some(m) => Some((*m.ty).clone()),
                None => None,
            };
            match found {
                Some(ty) => Ok(make_member(e, id, ty)),
                None => {
                    let mut text = type_to_string(&TypedExpression::Struct(e));
                    text.append(" doesn't have member ");
                    text.append(id.as_str());
                    Err(make_error(pos, text))
                },
            }
        },
        e => {
            let mut text = String::from_str("Cannot access member ");
            text.append(id.as_str());
            text.append(" on expression of type ");
            text.append(type_to_string(&e).as_str());
            Err(make_error(pos, text))
        },
    }
}

/// What an array spreads out into.
fn type_spread<T: Field>(pos: (Position, Position), x: TypedExpression<T>) -> (r: Result<
    Vec<TypedExpression<T>>,
    ErrorInner,
>)
    ensures
        match r {
            Ok(v) => typed_spread::<T>(pos, x@) == Ok::<_, ErrorInnerView>(expressions_model(&v)),
            Err(e) => typed_spread::<T>(pos, x@) == Err::<Seq<TypedExpressionView>, _>(e@),
        },
{
    match x {
        TypedExpression::Array(e) => {
            let size = e.size;
            let ty = e.ty;
            match e.inner {
                ArrayExpressionInner::Value(v) => Ok(v),
                inner => {
                    let array = ArrayExpression { size, ty, inner };
                    Ok(make_slice_elements(&array, 0, size))
                },
            }
        },
        e => {
            let mut text = String::from_str("Expected spread operator to apply on array, found ");
            text.append(type_to_string(&e).as_str());
            Err(make_error(pos, text))
        },
    }
}

pub proof fn lemma_first_of_other_type(elements: Seq<TypedExpressionView>, ty: TypeView)
    ensures
        0 <= first_of_other_type(elements, ty) <= elements.len(),
        first_of_other_type(elements, ty) < elements.len() ==> !crate::typed_absy::types::same_type(
            elements[first_of_other_type(elements, ty)].get_type(),
            ty,
        ),
        forall|j: int|
            0 <= j < first_of_other_type(elements, ty) ==> crate::typed_absy::types::same_type(
                (#[trigger] elements[j]).get_type(),
                ty,
            ),
    decreases elements.len(),
{
    if elements.len() != 0 && crate::typed_absy::types::same_type(elements[0].get_type(), ty) {
        let rest = elements.drop_first();
        lemma_first_of_other_type(rest, ty);
        assert forall|j: int|
            0 <= j < first_of_other_type(elements, ty) implies crate::typed_absy::types::same_type(
            (#[trigger] elements[j]).get_type(),
            ty,
        ) by {
            if j > 0 {
                assert(elements[j] == rest[j - 1]);
            }
        }
    }
}

pub proof fn lemma_first_of_other_type_is(elements: Seq<TypedExpressionView>, ty: TypeView, i: int)
    requires
        0 <= i <= elements.len(),
        i < elements.len() ==> !crate::typed_absy::types::same_type(elements[i].get_type(), ty),
        forall|j: int|
            0 <= j < i ==> crate::typed_absy::types::same_type(
                (#[trigger] elements[j]).get_type(),
                ty,
            ),
    ensures
        first_of_other_type(elements, ty) == i,
{
    lemma_first_of_other_type(elements, ty);
    let p = first_of_other_type(elements, ty);
    if p < i {
        assert(crate::typed_absy::types::same_type(elements[p].get_type(), ty));
    }
}

/// The rule for an inline array.
fn type_inline_array<T: Field>(pos: (Position, Position), elements: Vec<TypedExpression<T>>) -> (r:
    Result<TypedExpression<T>, ErrorInner>)
    ensures
        result_view(r) == typed_inline_array(pos, expressions_model(&elements)),
{
    if elements.len() == 0 {
        return Err(make_error(pos, String::from_str("Inline array cannot be empty")));
    }
    let inferred_type = elements[0].get_type();
    let ghost views = expressions_model(&elements);
    let mut i: usize = 0;
    while i < elements.len()
        invariant
            i <= elements.len(),
            views == expressions_model(&elements),
            inferred_type@ == views[0].get_type(),
            forall|j: int|
                0 <= j < i ==> crate::typed_absy::types::same_type(
                    (#[trigger] views[j]).get_type(),
                    inferred_type@,
                ),
        decreases elements.len() - i,
    {
        let e = &elements[i];
        let ty = e.get_type();
        if !ty.same(&inferred_type) {
            proof {
                lemma_first_of_other_type_is(views, inferred_type@, i as int);
            }
            let mut s = String::from_str("Expected ");
            s.append(e.to_string().as_str());
            s.append(" to have type ");
            s.append(inferred_type.to_string().as_str());
            s.append(", but type is ");
            s.append(ty.to_string().as_str());
            return Err(make_error(pos, s));
        }
        i += 1;
    }
    proof {
        lemma_first_of_other_type_is(views, inferred_type@, i as int);
    }
    let size = elements.len();
    Ok(TypedExpression::Array(ArrayExpressionInner::Value(elements).annotate(inferred_type, size)))
}

pub proof fn lemma_last_named(members: Seq<(Identifier, ExpressionNode)>, id: Seq<char>)
    ensures
        -1 <= last_named(members, id) < members.len(),
        last_named(members, id) >= 0 ==> members[last_named(members, id)].0@ == id,
        forall|j: int|
            last_named(members, id) < j < members.len() ==> (#[trigger] members[j]).0@ != id,
    decreases members.len(),
{
    if members.len() != 0 && members.last().0@ != id {
        lemma_last_named(members.drop_last(), id);
        assert forall|j: int| last_named(members, id) < j < members.len() implies (
        #[trigger] members[j]).0@ != id by {
            if j < members.len() - 1 {
                assert(members[j] == members.drop_last()[j]);
            }
        }
        if last_named(members, id) >= 0 {
            assert(members[last_named(members, id)] == members.drop_last()[last_named(
                members,
                id,
            )]);
        }
    }
}

pub proof fn lemma_last_named_is(members: Seq<(Identifier, ExpressionNode)>, id: Seq<char>, i: int)
    requires
        -1 <= i < members.len(),
        i >= 0 ==> members[i].0@ == id,
        forall|j: int| i < j < members.len() ==> (#[trigger] members[j]).0@ != id,
    ensures
        last_named(members, id) == i,
{
    lemma_last_named(members, id);
    let p = last_named(members, id);
    if p > i {
        assert(members[p].0@ == id);
    }
}

impl Checker {
    /// Checks an expression: the typed expression it stands for, or the
    /// first thing wrong with it.
    #[verifier::rlimit(100)]
    pub fn check_expression<T: Field>(
        &self,
        expr: ExpressionNode,
        module_id: &String,
        types: &TypeMap,
    ) -> (r: Result<TypedExpression<T>, ErrorInner>)
        requires
            structs_only(types@),
        ensures
            result_view(r) == checked_expression::<T>(self@, &expr, module_id@, types@),
        decreases expr, 0nat,
    {
        let pos = expr.pos();
        let ghost whole = expr;
        match split_binary(expr.value) {
            Ok((op, a, b)) => {
                assert(decreases_to!(whole => whole.value));
                let x = match self.check_expression(*a, module_id, types) {
                    Ok(x) => x,
                    Err(e) => {
                        return Err(e);
                    },
                };
                let y = match self.check_expression(*b, module_id, types) {
                    Ok(y) => y,
                    Err(e) => {
                        return Err(e);
                    },
                };
                type_binary(op, pos, x, y)
            },
            Err(other) => match other {
                Expression::BooleanConstant(b) => Ok(
                    TypedExpression::Boolean(BooleanExpression::Value(b)),
                ),
                Expression::Identifier(name) => {
                    let found = match self.get_scope(name.as_str()) {
                        Some(v) => Some(v.id.get_type()),
                        None => None,
                    };
                    match found {
                        Some(ty) => Ok(make_identifier(name.as_str(), ty)),
                        None => {
                            let mut s = String::from_str("Identifier \"");
                            s.append(name.as_str());
                            s.append("\" is undefined");
                            Err(make_error(pos, s))
                        },
                    }
                },
                Expression::Not(a) => {
                    match self.check_expression(*a, module_id, types) {
                        Ok(x) => type_not(pos, x),
                        Err(e) => Err(e),
                    }
                },
                Expression::IfElse(condition, consequence, alternative) => {
                    let c = match self.check_expression(*condition, module_id, types) {
                        Ok(x) => x,
                        Err(e) => {
                            return Err(e);
                        },
                    };
                    let x = match self.check_expression(*consequence, module_id, types) {
                        Ok(x) => x,
                        Err(e) => {
                            return Err(e);
                        },
                    };
                    let y = match self.check_expression(*alternative, module_id, types) {
                        Ok(x) => x,
                        Err(e) => {
                            return Err(e);
                        },
                    };
                    type_if_else(pos, c, x, y)
                },
                Expression::FieldConstant(n) => {
                    match T::try_from_le_bytes(&n) {
                        Some(x) => Ok(
                            TypedExpression::FieldElement(FieldElementExpression::Number(x)),
                        ),
                        None => {
                            let mut s = String::from_str(
                                "Field constant not in the representable range [",
                            );
                            s.append(T::min_value().to_dec_string().as_str());
                            s.append(", ");
                            s.append(T::max_value().to_dec_string().as_str());
                            s.append("]");
                            Err(make_error(pos, s))
                        },
                    }
                },
                Expression::U8Constant(n) => Ok(
                    TypedExpression::Uint(
                        UExpressionInner::Value(n as u128).annotate(UBitwidth::B8),
                    ),
                ),
                Expression::U16Constant(n) => Ok(
                    TypedExpression::Uint(
                        UExpressionInner::Value(n as u128).annotate(UBitwidth::B16),
                    ),
                ),
                Expression::U32Constant(n) => Ok(
                    TypedExpression::Uint(
                        UExpressionInner::Value(n as u128).annotate(UBitwidth::B32),
                    ),
                ),
                Expression::FunctionCall(fun_id, arguments) => {
                    match self.check_expressions(arguments, module_id, types) {
                        Ok(checked) => type_call(self, pos, fun_id, checked),
                        Err(e) => Err(e),
                    }
                },
                Expression::Select(array, index) => {
                    let array = match self.check_expression(*array, module_id, types) {
                        Ok(x) => x,
                        Err(e) => {
                            return Err(e);
                        },
                    };
                    match *index {
                        RangeOrExpression::Range(r) => match array {
                            TypedExpression::Array(array) => {
                                let from = match r.value.from {
                                    Some(bound) => match self.check_expression(
                                        bound,
                                        module_id,
                                        types,
                                    ) {
                                        Ok(x) => x,
                                        Err(e) => {
                                            return Err(e);
                                        },
                                    },
                                    None => TypedExpression::FieldElement(
                                        FieldElementExpression::Number(T::from_usize(0)),
                                    ),
                                };
                                let to = match r.value.to {
                                    Some(bound) => match self.check_expression(
                                        bound,
                                        module_id,
                                        types,
                                    ) {
                                        Ok(x) => x,
                                        Err(e) => {
                                            return Err(e);
                                        },
                                    },
                                    None => TypedExpression::FieldElement(
                                        FieldElementExpression::Number(
                                            T::from_usize(array.size()),
                                        ),
                                    ),
                                };
                                type_slice(pos, array, from, to)
                            },
                            e => {
                                let mut s = String::from_str("Cannot access slice of expression ");
                                s.append(e.to_string().as_str());
                                s.append(" of type ");
                                s.append(type_to_string(&e).as_str());
                                Err(make_error(pos, s))
                            },
                        },
                        RangeOrExpression::Expression(i) => {
                            match self.check_expression(i, module_id, types) {
                                Ok(x) => type_select(pos, array, x),
                                Err(e) => Err(e),
                            }
                        },
                    }
                },
                Expression::Member(e, id) => {
                    match self.check_expression(*e, module_id, types) {
                        Ok(x) => type_member(pos, x, *id),
                        Err(e) => Err(e),
                    }
                },
                Expression::InlineArray(elements) => {
                    match self.check_elements(elements, module_id, types) {
                        Ok(checked) => type_inline_array(pos, checked),
                        Err(e) => Err(e),
                    }
                },
                Expression::InlineStruct(id, members) => {
                    let expression = Expression::InlineStruct(id, members);
                    let text = expression.to_string();
                    match expression {
                        Expression::InlineStruct(id, members) => {
                            match find_inline_struct_type(
                                pos,
                                &text,
                                &id,
                                members.len(),
                                module_id,
                                types,
                            ) {
                                Ok((struct_type, struct_text)) => {
                                    assert(whole.value == Expression::InlineStruct(id, members));
                                    assert(whole.value is InlineStruct);
                                    assert(decreases_to!(whole => whole.value));
                                    assert(decreases_to!(whole.value => whole.value->InlineStruct_1));
                                    assert(decreases_to!(whole => members));
                                    match self.check_members(
                                    pos,
                                    &text,
                                    &struct_type,
                                    &struct_text,
                                    &id,
                                    members,
                                    module_id,
                                    types,
                                ) {
                                    Ok(values) => Ok(
                                        TypedExpression::Struct(
                                            StructExpressionInner::Value(values).annotate(
                                                struct_type,
                                            ),
                                        ),
                                    ),
                                    Err(e) => Err(e),
                                }},
                                Err(e) => Err(e),
                            }
                        },
                        _ => Err(make_error(pos, text)),
                    }
                },
                _ => {
                    proof {
                        assert(false);
                    }
                    Err(make_error(pos, String::new()))
                },
            },
        }
    }

    /// Checks the expressions of a list in order, up to the first that is
    /// wrong.
    pub fn check_expressions<T: Field>(
        &self,
        list: Vec<ExpressionNode>,
        module_id: &String,
        types: &TypeMap,
    ) -> (r: Result<Vec<TypedExpression<T>>, ErrorInner>)
        requires
            structs_only(types@),
        ensures
            match r {
                Ok(v) => checked_expressions::<T>(
                    self@,
                    &list,
                    list.len() as nat,
                    module_id@,
                    types@,
                ) == Ok::<_, ErrorInnerView>(expressions_model(&v)),
                Err(e) => checked_expressions::<T>(
                    self@,
                    &list,
                    list.len() as nat,
                    module_id@,
                    types@,
                ) == Err::<Seq<TypedExpressionView>, _>(e@),
            },
        decreases list, 0nat,
    {
        let mut out: Vec<TypedExpression<T>> = Vec::new();
        let ghost all = list;
        assert(expressions_model(&out) =~= Seq::<TypedExpressionView>::empty());
        for e in it: list
            invariant
                structs_only(types@),
                it.seq() == all@,
                all == list,
                checked_expressions::<T>(self@, &all, it.index() as nat, module_id@, types@) == Ok::<
                    _,
                    ErrorInnerView,
                >(expressions_model(&out)),
        {
            let ghost before = expressions_model(&out);
            assert(e == all[it.index() as int]);
            assert(decreases_to!(all => all[it.index() as int]));
            match self.check_expression(e, module_id, types) {
                Ok(x) => {
                    out.push(x);
                    assert(expressions_model(&out) =~= before.push(x@));
                },
                Err(error) => {
                    proof {
                        lemma_checked_expressions_fail::<T>(
                            self@,
                            &all,
                            (it.index() + 1) as nat,
                            all.len() as nat,
                            module_id@,
                            types@,
                        );
                    }
                    return Err(error);
                },
            }
        }
        Ok(out)
    }

    /// Checks an element of an inline array: an expression stands for
    /// itself, a spread for the elements of the array it spreads.
    pub fn check_spread_or_expression<T: Field>(
        &self,
        spread_or_expression: SpreadOrExpression,
        module_id: &String,
        types: &TypeMap,
    ) -> (r: Result<Vec<TypedExpression<T>>, ErrorInner>)
        requires
            structs_only(types@),
        ensures
            match r {
                Ok(v) => checked_spread_or_expression::<T>(
                    self@,
                    &spread_or_expression,
                    module_id@,
                    types@,
                ) == Ok::<_, ErrorInnerView>(expressions_model(&v)),
                Err(e) => checked_spread_or_expression::<T>(
                    self@,
                    &spread_or_expression,
                    module_id@,
                    types@,
                ) == Err::<Seq<TypedExpressionView>, _>(e@),
            },
        decreases spread_or_expression, 0nat,
    {
        match spread_or_expression {
            SpreadOrExpression::Spread(s) => {
                let pos = s.pos();
                match self.check_expression(s.value.expression, module_id, types) {
                    Ok(x) => type_spread(pos, x),
                    Err(e) => Err(e),
                }
            },
            SpreadOrExpression::Expression(e) => {
                match self.check_expression(e, module_id, types) {
                    Ok(x) => {
                        let mut v: Vec<TypedExpression<T>> = Vec::new();
                        v.push(x);
                        assert(expressions_model(&v) =~= seq![x@]);
                        Ok(v)
                    },
                    Err(e) => Err(e),
                }
            },
        }
    }

    /// Checks the elements of an inline array in order, up to the first
    /// that is wrong.
    fn check_elements<T: Field>(
        &self,
        list: Vec<SpreadOrExpression>,
        module_id: &String,
        types: &TypeMap,
    ) -> (r: Result<Vec<TypedExpression<T>>, ErrorInner>)
        requires
            structs_only(types@),
        ensures
            match r {
                Ok(v) => checked_elements::<T>(self@, &list, list.len() as nat, module_id@, types@)
                    == Ok::<_, ErrorInnerView>(expressions_model(&v)),
                Err(e) => checked_elements::<T>(self@, &list, list.len() as nat, module_id@, types@)
                    == Err::<Seq<TypedExpressionView>, _>(e@),
            },
        decreases list, 0nat,
    {
        let mut out: Vec<TypedExpression<T>> = Vec::new();
        let ghost all = list;
        assert(expressions_model(&out) =~= Seq::<TypedExpressionView>::empty());
        for e in it: list
            invariant
                structs_only(types@),
                it.seq() == all@,
                all == list,
                checked_elements::<T>(self@, &all, it.index() as nat, module_id@, types@) == Ok::<
                    _,
                    ErrorInnerView,
                >(expressions_model(&out)),
        {
            let ghost before = expressions_model(&out);
            assert(e == all[it.index() as int]);
            assert(decreases_to!(all => all[it.index() as int]));
            match self.check_spread_or_expression(e, module_id, types) {
                Ok(more) => {
                    let mut more = more;
                    let ghost added = expressions_model(&more);
                    out.append(&mut more);
                    assert(expressions_model(&out) =~= before + added);
                },
                Err(error) => {
                    proof {
                        lemma_checked_elements_fail::<T>(
                            self@,
                            &all,
                            (it.index() + 1) as nat,
                            all.len() as nat,
                            module_id@,
                            types@,
                        );
                    }
                    return Err(error);
                },
            }
        }
        Ok(out)
    }
}

/// Once the values of a prefix of the members fail, every longer prefix
/// fails with the same error.
pub proof fn lemma_checked_members_fail<T: Field>(
    c: crate::semantics::scope::CheckerView,
    pos: (Position, Position),
    text: Seq<char>,
    st: crate::typed_absy::types::StructTypeView,
    name: Seq<char>,
    members: &Vec<(Identifier, ExpressionNode)>,
    n: nat,
    m: nat,
    module: Seq<char>,
    types: TypesView,
)
    requires
        n <= m <= st.members.len(),
        checked_members::<T>(c, pos, text, st, name, members, n, module, types) is Err,
    ensures
        checked_members::<T>(c, pos, text, st, name, members, m, module, types)
            == checked_members::<T>(c, pos, text, st, name, members, n, module, types),
    decreases m - n,
{
    if n < m {
        lemma_checked_members_fail::<T>(
            c,
            pos,
            text,
            st,
            name,
            members,
            n,
            (m - 1) as nat,
            module,
            types,
        );
    }
}

/// Takes the members of an inline struct apart into their names and their
/// values.
fn split_members(members: Vec<(Identifier, ExpressionNode)>) -> (r: (
    Vec<String>,
    Vec<Option<ExpressionNode>>,
))
    ensures
        r.0.len() == members.len(),
        r.1.len() == members.len(),
        forall|j: int| 0 <= j < members.len() ==> (#[trigger] r.0[j])@ == members[j].0@,
        forall|j: int| 0 <= j < members.len() ==> (#[trigger] r.1[j]) == Some(members[j].1),
{
    let ghost all = members;
    let mut names: Vec<String> = Vec::new();
    let mut slots: Vec<Option<ExpressionNode>> = Vec::new();
    for member in it: members
        invariant
            it.seq() == all@,
            names.len() == it.index(),
            slots.len() == it.index(),
            forall|j: int| 0 <= j < it.index() ==> (#[trigger] names[j])@ == all[j].0@,
            forall|j: int| 0 <= j < it.index() ==> (#[trigger] slots[j]) == Some(all[j].1),
    {
        assert(member == all[it.index() as int]);
        names.push(member.0);
        slots.push(Some(member.1));
    }
    (names, slots)
}

/// The position of the last name that is `id`.
fn last_index_of(names: &Vec<String>, id: &str) -> (r: Option<usize>)
    ensures
        r is None ==> forall|i: int| 0 <= i < names.len() ==> (#[trigger] names[i])@ != id@,
        r matches Some(i) ==> i < names.len() && names[i as int]@ == id@ && forall|i2: int|
            i < i2 < names.len() ==> (#[trigger] names[i2])@ != id@,
{
    let mut at: usize = names.len();
    while at > 0
        invariant
            at <= names.len(),
            forall|i: int| at <= i < names.len() ==> (#[trigger] names[i])@ != id@,
        decreases at,
    {
        if crate::text::str_eq(names[at - 1].as_str(), id) {
            return Some(at - 1);
        }
        at -= 1;
    }
    None
}

/// Whether a member before the one at `k` has the same name.
fn is_named_before(struct_type: &StructType, k: usize) -> (r: bool)
    requires
        k < struct_type.members.len(),
    ensures
        r == named_before(struct_type@.members, k as int, struct_type@.members[k as int].id),
{
    let ghost st = struct_type@;
    let ghost id = st.members[k as int].id;
    assert(st.members[k as int] == struct_type.members[k as int]@);
    let mut j: usize = 0;
    while j < k
        invariant
            j <= k,
            k < struct_type.members.len(),
            st == struct_type@,
            id == struct_type.members[k as int].id@,
            forall|i: int| 0 <= i < j ==> (#[trigger] st.members[i]).id != id,
        decreases k - j,
    {
        assert(st.members[j as int] == struct_type.members[j as int]@);
        if struct_type.members[j].id == struct_type.members[k].id {
            return true;
        }
        j += 1;
    }
    false
}

/// The struct type that the module knows under `id`.
fn find_struct(types: &TypeMap, module_id: &String, id: &String) -> (r: Option<StructType>)
    requires
        structs_only(types@),
    ensures
        r is Some <==> declared_type(types@, module_id@, id@) is Some,
        r matches Some(s) ==> declared_type(types@, module_id@, id@) == Some(TypeView::Struct(s@)),
{
    let found = match types.get(module_id.as_str()) {
        Some(known) => match known.get(id.as_str()) {
            Some(t) => Some(t.clone()),
            None => None,
        },
        None => None,
    };
    match found {
        None => None,
        Some(Type::Struct(struct_type)) => Some(struct_type),
        Some(_) => {
            assert(declared_type(types@, module_id@, id@) is Some);
            None
        },
    }
}

/// A struct type as text.
fn struct_to_string(struct_type: &StructType) -> (r: String)
    ensures
        r@ == crate::typed_absy::types::type_display(TypeView::Struct(struct_type@)),
{
    Type::Struct(struct_type.clone()).to_string()
}

/// What an inline struct is checked against: the struct type its name
/// stands for, which has as many members as the inline struct has values,
/// and how that type is written.
pub open spec fn inline_struct_type(
    pos: (Position, Position),
    text: Seq<char>,
    name: Seq<char>,
    values: nat,
    module: Seq<char>,
    types: TypesView,
) -> Result<crate::typed_absy::types::StructTypeView, ErrorInnerView> {
    match declared_type(types, module, name) {
        None => Err(error_at(pos, "Undefined type "@ + name)),
        Some(t) => {
            let st = t->Struct_0;
            if st.members.len() != values {
                Err(
                    error_at(
                        pos,
                        "Inline struct "@ + text + " does not match "@
                            + crate::typed_absy::types::type_display(TypeView::Struct(st)),
                    ),
                )
            } else {
                Ok(st)
            }
        },
    }
}

fn find_inline_struct_type(
    pos: (Position, Position),
    text: &String,
    id: &String,
    values: usize,
    module_id: &String,
    types: &TypeMap,
) -> (r: Result<(StructType, String), ErrorInner>)
    requires
        structs_only(types@),
    ensures
        match r {
            Ok((st, st_text)) => inline_struct_type(
                pos,
                text@,
                id@,
                values as nat,
                module_id@,
                types@,
            ) == Ok::<_, ErrorInnerView>(st@) && st_text@
                == crate::typed_absy::types::type_display(TypeView::Struct(st@)),
            Err(e) => inline_struct_type(pos, text@, id@, values as nat, module_id@, types@)
                == Err::<crate::typed_absy::types::StructTypeView, _>(e@),
        },
{
    let struct_type = match find_struct(types, module_id, id) {
        None => {
            let mut message = String::from_str("Undefined type ");
            message.append(id.as_str());
            return Err(make_error(pos, message));
        },
        Some(struct_type) => struct_type,
    };
    let struct_text = struct_to_string(&struct_type);
    if struct_type.len() != values {
        let mut message = String::from_str("Inline struct ");
        message.append(text.as_str());
        message.append(" does not match ");
        message.append(struct_text.as_str());
        return Err(make_error(pos, message));
    }
    Ok((struct_type, struct_text))
}

fn member_not_found_error(
    pos: (Position, Position),
    member: &String,
    struct_text: &String,
    text: &String,
    Ghost(st): Ghost<crate::typed_absy::types::StructTypeView>,
) -> (r: ErrorInner)
    requires
        struct_text@ == crate::typed_absy::types::type_display(TypeView::Struct(st)),
    ensures
        r@ == error_at(pos, member_not_found(member@, st, text@)),
{
    let mut message = String::from_str("Member ");
    message.append(member.as_str());
    message.append(" of struct ");
    message.append(struct_text.as_str());
    message.append(" not found in value ");
    message.append(text.as_str());
    make_error(pos, message)
}

fn member_of_other_type_error<T: Field>(
    pos: (Position, Position),
    member: &crate::typed_absy::types::StructMember,
    id: &String,
    checked: &TypedExpression<T>,
) -> (r: ErrorInner)
    ensures
        r@ == error_at(pos, member_of_other_type(member@, id@, checked@)),
{
    let mut message = String::from_str("Member ");
    message.append(member.id.as_str());
    message.append(" of struct ");
    message.append(id.as_str());
    message.append(" has type ");
    message.append(member.ty.to_string().as_str());
    message.append(", found ");
    message.append(checked.to_string().as_str());
    message.append(" of type ");
    message.append(type_to_string(checked).as_str());
    make_error(pos, message)
}

impl Checker {
    /// Checks the values that an inline struct gives the members of its
    /// type, member by member.
    fn check_members<T: Field>(
        &self,
        pos: (Position, Position),
        text: &String,
        struct_type: &StructType,
        struct_text: &String,
        id: &String,
        members: Vec<(Identifier, ExpressionNode)>,
        module_id: &String,
        types: &TypeMap,
    ) -> (r: Result<Vec<TypedExpression<T>>, ErrorInner>)
        requires
            structs_only(types@),
            struct_text@ == crate::typed_absy::types::type_display(
                TypeView::Struct(struct_type@),
            ),
        ensures
            match r {
                Ok(v) => checked_members::<T>(
                    self@,
                    pos,
                    text@,
                    struct_type@,
                    id@,
                    &members,
                    struct_type@.members.len(),
                    module_id@,
                    types@,
                ) == Ok::<_, ErrorInnerView>(expressions_model(&v)),
                Err(e) => checked_members::<T>(
                    self@,
                    pos,
                    text@,
                    struct_type@,
                    id@,
                    &members,
                    struct_type@.members.len(),
                    module_id@,
                    types@,
                ) == Err::<Seq<TypedExpressionView>, _>(e@),
            },
        decreases members,
    {
        let ghost st = struct_type@;
        let ghost all = members;
        let (names, mut slots) = split_members(members);
        let mut result: Vec<TypedExpression<T>> = Vec::new();
        assert(expressions_model(&result) =~= Seq::<TypedExpressionView>::empty());
        let mut k: usize = 0;
        while k < struct_type.members.len()
            invariant
                structs_only(types@),
                k <= struct_type.members.len(),
                st == struct_type@,
                all == members,
                struct_text@ == crate::typed_absy::types::type_display(TypeView::Struct(st)),
                names.len() == all.len(),
                slots.len() == all.len(),
                forall|j: int| 0 <= j < all.len() ==> (#[trigger] names[j])@ == all[j].0@,
                forall|j: int|
                    0 <= j < all.len() ==> (#[trigger] slots[j]) == Some(all[j].1) || named_before(
                        st.members,
                        k as int,
                        all[j].0@,
                    ),
                checked_members::<T>(
                    self@,
                    pos,
                    text@,
                    st,
                    id@,
                    &all,
                    k as nat,
                    module_id@,
                    types@,
                ) == Ok::<_, ErrorInnerView>(expressions_model(&result)),
            decreases struct_type.members.len() - k,
        {
            let ghost before = expressions_model(&result);
            let member = &struct_type.members[k];
            assert(st.members[k as int] == member@);
            let earlier = is_named_before(struct_type, k);
            let found = last_index_of(&names, member.id.as_str());
            proof {
                match found {
                    Some(i) => {
                        assert(names[i as int]@ == all[i as int].0@);
                        assert forall|i2: int| i < i2 < all.len() implies (#[trigger] all[i2]).0@
                            != member.id@ by {
                            assert(names[i2]@ == all[i2].0@);
                        }
                        lemma_last_named_is(all@, member.id@, i as int);
                    },
                    None => {
                        assert forall|i2: int| -1 < i2 < all.len() implies (#[trigger] all[i2]).0@
                            != member.id@ by {
                            assert(names[i2]@ == all[i2].0@);
                        }
                        lemma_last_named_is(all@, member.id@, -1);
                    },
                }
            }
            let index = match found {
                Some(i) => i,
                None => names.len(),
            };
            if earlier || found.is_none() {
                proof {
                    lemma_checked_members_fail::<T>(
                        self@,
                        pos,
                        text@,
                        st,
                        id@,
                        &all,
                        (k + 1) as nat,
                        st.members.len(),
                        module_id@,
                        types@,
                    );
                }
                return Err(member_not_found_error(pos, &member.id, struct_text, text, Ghost(st)));
            }
            assert(!named_before(st.members, k as int, all[index as int].0@));
            let mut taken: Option<ExpressionNode> = None;
            slots.set_and_swap(index, &mut taken);
            let value = match taken {
                Some(value) => value,
                None => {
                    proof {
                        assert(false);
                    }
                    return Err(make_error(pos, String::new()));
                },
            };
            assert(value == all[index as int].1);
            assert(decreases_to!(all => all[index as int]));
            assert(decreases_to!(all[index as int] => all[index as int].1));
            let checked = match self.check_expression(value, module_id, types) {
                Ok(x) => x,
                Err(e) => {
                    proof {
                        lemma_checked_members_fail::<T>(
                            self@,
                            pos,
                            text@,
                            st,
                            id@,
                            &all,
                            (k + 1) as nat,
                            st.members.len(),
                            module_id@,
                            types@,
                        );
                    }
                    return Err(e);
                },
            };
            if !checked.get_type().same(&member.ty) {
                proof {
                    lemma_checked_members_fail::<T>(
                        self@,
                        pos,
                        text@,
                        st,
                        id@,
                        &all,
                        (k + 1) as nat,
                        st.members.len(),
                        module_id@,
                        types@,
                    );
                }
                return Err(member_of_other_type_error(pos, member, id, &checked));
            }
            result.push(checked);
            proof {
                assert(expressions_model(&result) =~= before.push(checked@));
                assert forall|j: int| 0 <= j < all.len() implies (#[trigger] slots[j]) == Some(
                    all[j].1,
                ) || named_before(st.members, k + 1, all[j].0@) by {
                    if j == index {
                        assert(st.members[k as int].id == all[j].0@);
                    } else if slots[j] != Some(all[j].1) {
                        let w = choose|w: int|
                            0 <= w < k && w < st.members.len() && (#[trigger] st.members[w]).id
                                == all[j].0@;
                        assert(st.members[w].id == all[j].0@);
                    }
                }
            }
            k += 1;
        }
        Ok(result)
    }
}

/// Once a prefix of a list fails, every longer prefix fails with the same
/// error.
pub proof fn lemma_checked_expressions_fail<T: Field>(
    c: crate::semantics::scope::CheckerView,
    list: &Vec<ExpressionNode>,
    n: nat,
    m: nat,
    module: Seq<char>,
    types: TypesView,
)
    requires
        n <= m <= list.len(),
        checked_expressions::<T>(c, list, n, module, types) is Err,
    ensures
        checked_expressions::<T>(c, list, m, module, types) == checked_expressions::<T>(
            c,
            list,
            n,
            module,
            types,
        ),
    decreases m - n,
{
    if n < m {
        lemma_checked_expressions_fail::<T>(c, list, n, (m - 1) as nat, module, types);
    }
}

/// Once a prefix of the elements of an inline array fails, every longer
/// prefix fails with the same error.
pub proof fn lemma_checked_elements_fail<T: Field>(
    c: crate::semantics::scope::CheckerView,
    list: &Vec<SpreadOrExpression>,
    n: nat,
    m: nat,
    module: Seq<char>,
    types: TypesView,
)
    requires
        n <= m <= list.len(),
        checked_elements::<T>(c, list, n, module, types) is Err,
    ensures
        checked_elements::<T>(c, list, m, module, types) == checked_elements::<T>(
            c,
            list,
            n,
            module,
            types,
        ),
    decreases m - n,
{
    if n < m {
        lemma_checked_elements_fail::<T>(c, list, n, (m - 1) as nat, module, types);
    }
}

} // verus!
