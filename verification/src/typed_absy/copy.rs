//! Copies of typed expressions. A copy has the same view as what it was copied from.

use vstd::prelude::*;
use crate::field::Field;
use crate::typed_absy::expression::{
    ArrayExpression, ArrayExpressionInner, BooleanExpression, FieldElementExpression,
    StructExpression, StructExpressionInner, TypedExpression, UExpression, UExpressionInner,
    expressions_model,
};

verus! {

/// A copy of a list of typed expressions.
pub fn copy_expressions<T: Field>(list: &Vec<TypedExpression<T>>) -> (r: Vec<TypedExpression<T>>)
    ensures
        expressions_model(&r) == expressions_model(list),
    decreases list, 0nat,
{
    let mut out: Vec<TypedExpression<T>> = Vec::new();
    let mut i: usize = 0;
    while i < list.len()
        invariant
            i <= list.len(),
            out.len() == i,
            forall|j: int| 0 <= j < i ==> out[j]@ == list[j]@,
        decreases list.len() - i,
    {
        out.push(list[i].copy());
        i += 1;
    }
    assert(expressions_model(&out) =~= expressions_model(list));
    out
}

impl<T: Field> TypedExpression<T> {
    pub fn copy(&self) -> (r: Self)
        ensures
            r@ == self@,
        decreases self, 0nat,
    {
        match self {
            TypedExpression::Boolean(e) => TypedExpression::Boolean(e.copy()),
            TypedExpression::FieldElement(e) => TypedExpression::FieldElement(e.copy()),
            TypedExpression::Uint(e) => TypedExpression::Uint(e.copy()),
            TypedExpression::Array(e) => TypedExpression::Array(e.copy()),
            TypedExpression::Struct(e) => TypedExpression::Struct(e.copy()),
        }
    }
}

impl<T: Field> FieldElementExpression<T> {
    pub fn copy(&self) -> (r: Self)
        ensures
            r@ == self@,
        decreases self, 0nat,
    {
        match self {
            FieldElementExpression::Number(n) => FieldElementExpression::Number(n.duplicate()),
            FieldElementExpression::Identifier(id) => FieldElementExpression::Identifier(
                id.clone(),
            ),
            FieldElementExpression::Add(a, b) => FieldElementExpression::Add(
                Box::new(a.copy()),
                Box::new(b.copy()),
            ),
            FieldElementExpression::Sub(a, b) => FieldElementExpression::Sub(
                Box::new(a.copy()),
                Box::new(b.copy()),
            ),
            FieldElementExpression::Mult(a, b) => FieldElementExpression::Mult(
                Box::new(a.copy()),
                Box::new(b.copy()),
            ),
            FieldElementExpression::Div(a, b) => FieldElementExpression::Div(
                Box::new(a.copy()),
                Box::new(b.copy()),
            ),
            FieldElementExpression::Pow(a, b) => FieldElementExpression::Pow(
                Box::new(a.copy()),
                Box::new(b.copy()),
            ),
            FieldElementExpression::IfElse(c, a, b) => FieldElementExpression::IfElse(
                Box::new(c.copy()),
                Box::new(a.copy()),
                Box::new(b.copy()),
            ),
            FieldElementExpression::FunctionCall(k, args) => FieldElementExpression::FunctionCall(
                k.clone(),
                copy_expressions(args),
            ),
            FieldElementExpression::Member(s, m) => FieldElementExpression::Member(
                Box::new(s.copy()),
                m.clone(),
            ),
            FieldElementExpression::Select(a, i) => FieldElementExpression::Select(
                Box::new(a.copy()),
                Box::new(i.copy()),
            ),
        }
    }
}

impl<T: Field> BooleanExpression<T> {
    pub fn copy(&self) -> (r: Self)
        ensures
            r@ == self@,
        decreases self, 0nat,
    {
        match self {
            BooleanExpression::Identifier(id) => BooleanExpression::Identifier(id.clone()),
            BooleanExpression::Value(b) => BooleanExpression::Value(*b),
            BooleanExpression::Lt(a, b) => BooleanExpression::Lt(
                Box::new(a.copy()),
                Box::new(b.copy()),
            ),
            BooleanExpression::Le(a, b) => BooleanExpression::Le(
                Box::new(a.copy()),
                Box::new(b.copy()),
            ),
            BooleanExpression::FieldEq(a, b) => BooleanExpression::FieldEq(
                Box::new(a.copy()),
                Box::new(b.copy()),
            ),
            BooleanExpression::Ge(a, b) => BooleanExpression::Ge(
                Box::new(a.copy()),
                Box::new(b.copy()),
            ),
            BooleanExpression::Gt(a, b) => BooleanExpression::Gt(
                Box::new(a.copy()),
                Box::new(b.copy()),
            ),
            BooleanExpression::BoolEq(a, b) => BooleanExpression::BoolEq(
                Box::new(a.copy()),
                Box::new(b.copy()),
            ),
            BooleanExpression::Or(a, b) => BooleanExpression::Or(
                Box::new(a.copy()),
                Box::new(b.copy()),
            ),
            BooleanExpression::And(a, b) => BooleanExpression::And(
                Box::new(a.copy()),
                Box::new(b.copy()),
            ),
            BooleanExpression::ArrayEq(a, b) => BooleanExpression::ArrayEq(
                Box::new(a.copy()),
                Box::new(b.copy()),
            ),
            BooleanExpression::StructEq(a, b) => BooleanExpression::StructEq(
                Box::new(a.copy()),
                Box::new(b.copy()),
            ),
            BooleanExpression::UintEq(a, b) => BooleanExpression::UintEq(
                Box::new(a.copy()),
                Box::new(b.copy()),
            ),
            BooleanExpression::Not(a) => BooleanExpression::Not(Box::new(a.copy())),
            BooleanExpression::IfElse(c, a, b) => BooleanExpression::IfElse(
                Box::new(c.copy()),
                Box::new(a.copy()),
                Box::new(b.copy()),
            ),
            BooleanExpression::Member(s, m) => BooleanExpression::Member(
                Box::new(s.copy()),
                m.clone(),
            ),
            BooleanExpression::FunctionCall(k, args) => BooleanExpression::FunctionCall(
                k.clone(),
                copy_expressions(args),
            ),
            BooleanExpression::Select(a, i) => BooleanExpression::Select(
                Box::new(a.copy()),
                Box::new(i.copy()),
            ),
        }
    }
}

impl<T: Field> UExpression<T> {
    pub fn copy(&self) -> (r: Self)
        ensures
            r@ == self@,
        decreases self, 0nat,
    {
        let inner = match &self.inner {
            UExpressionInner::Identifier(id) => UExpressionInner::Identifier(id.clone()),
            UExpressionInner::Value(v) => UExpressionInner::Value(*v),
            UExpressionInner::Add(a, b) => UExpressionInner::Add(
                Box::new(a.copy()),
                Box::new(b.copy()),
            ),
            UExpressionInner::Sub(a, b) => UExpressionInner::Sub(
                Box::new(a.copy()),
                Box::new(b.copy()),
            ),
            UExpressionInner::Mult(a, b) => UExpressionInner::Mult(
                Box::new(a.copy()),
                Box::new(b.copy()),
            ),
            UExpressionInner::Div(a, b) => UExpressionInner::Div(
                Box::new(a.copy()),
                Box::new(b.copy()),
            ),
            UExpressionInner::Rem(a, b) => UExpressionInner::Rem(
                Box::new(a.copy()),
                Box::new(b.copy()),
            ),
            UExpressionInner::Xor(a, b) => UExpressionInner::Xor(
                Box::new(a.copy()),
                Box::new(b.copy()),
            ),
            UExpressionInner::And(a, b) => UExpressionInner::And(
                Box::new(a.copy()),
                Box::new(b.copy()),
            ),
            UExpressionInner::Or(a, b) => UExpressionInner::Or(
                Box::new(a.copy()),
                Box::new(b.copy()),
            ),
            UExpressionInner::Not(a) => UExpressionInner::Not(Box::new(a.copy())),
            UExpressionInner::LeftShift(a, by) => UExpressionInner::LeftShift(
                Box::new(a.copy()),
                Box::new(by.copy()),
            ),
            UExpressionInner::RightShift(a, by) => UExpressionInner::RightShift(
                Box::new(a.copy()),
                Box::new(by.copy()),
            ),
            UExpressionInner::FunctionCall(k, args) => UExpressionInner::FunctionCall(
                k.clone(),
                copy_expressions(args),
            ),
            UExpressionInner::IfElse(c, a, b) => UExpressionInner::IfElse(
                Box::new(c.copy()),
                Box::new(a.copy()),
                Box::new(b.copy()),
            ),
            UExpressionInner::Member(s, m) => UExpressionInner::Member(
                Box::new(s.copy()),
                m.clone(),
            ),
            UExpressionInner::Select(a, i) => UExpressionInner::Select(
                Box::new(a.copy()),
                Box::new(i.copy()),
            ),
        };
        UExpression { bitwidth: self.bitwidth, inner }
    }
}

impl<T: Field> ArrayExpression<T> {
    pub fn copy(&self) -> (r: Self)
        ensures
            r@ == self@,
        decreases self, 0nat,
    {
        let inner = match &self.inner {
            ArrayExpressionInner::Identifier(id) => ArrayExpressionInner::Identifier(id.clone()),
            ArrayExpressionInner::Value(v) => ArrayExpressionInner::Value(copy_expressions(v)),
            ArrayExpressionInner::FunctionCall(k, args) => ArrayExpressionInner::FunctionCall(
                k.clone(),
                copy_expressions(args),
            ),
            ArrayExpressionInner::IfElse(c, a, b) => ArrayExpressionInner::IfElse(
                Box::new(c.copy()),
                Box::new(a.copy()),
                Box::new(b.copy()),
            ),
            ArrayExpressionInner::Member(s, m) => ArrayExpressionInner::Member(
                Box::new(s.copy()),
                m.clone(),
            ),
            ArrayExpressionInner::Select(a, i) => ArrayExpressionInner::Select(
                Box::new(a.copy()),
                Box::new(i.copy()),
            ),
        };
        ArrayExpression { size: self.size, ty: self.ty.clone(), inner }
    }
}

impl<T: Field> StructExpression<T> {
    pub fn copy(&self) -> (r: Self)
        ensures
            r@ == self@,
        decreases self, 0nat,
    {
        let inner = match &self.inner {
            StructExpressionInner::Identifier(id) => StructExpressionInner::Identifier(
                id.clone(),
            ),
            StructExpressionInner::Value(v) => StructExpressionInner::Value(copy_expressions(v)),
            StructExpressionInner::FunctionCall(k, args) => StructExpressionInner::FunctionCall(
                k.clone(),
                copy_expressions(args),
            ),
            StructExpressionInner::IfElse(c, a, b) => StructExpressionInner::IfElse(
                Box::new(c.copy()),
                Box::new(a.copy()),
                Box::new(b.copy()),
            ),
            StructExpressionInner::Member(s, m) => StructExpressionInner::Member(
                Box::new(s.copy()),
                m.clone(),
            ),
            StructExpressionInner::Select(a, i) => StructExpressionInner::Select(
                Box::new(a.copy()),
                Box::new(i.copy()),
            ),
        };
        StructExpression { ty: self.ty.clone(), inner }
    }
}

impl<T: Field> Clone for TypedExpression<T> {
    fn clone(&self) -> (r: Self)
        ensures
            r@ == self@,
    {
        self.copy()
    }
}

impl<T: Field> Clone for FieldElementExpression<T> {
    fn clone(&self) -> (r: Self)
        ensures
            r@ == self@,
    {
        self.copy()
    }
}

impl<T: Field> Clone for BooleanExpression<T> {
    fn clone(&self) -> (r: Self)
        ensures
            r@ == self@,
    {
        self.copy()
    }
}

impl<T: Field> Clone for UExpression<T> {
    fn clone(&self) -> (r: Self)
        ensures
            r@ == self@,
    {
        self.copy()
    }
}

impl<T: Field> Clone for ArrayExpression<T> {
    fn clone(&self) -> (r: Self)
        ensures
            r@ == self@,
    {
        self.copy()
    }
}

impl<T: Field> Clone for StructExpression<T> {
    fn clone(&self) -> (r: Self)
        ensures
            r@ == self@,
    {
        self.copy()
    }
}

} // verus!
