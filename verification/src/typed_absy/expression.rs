//! Typed expressions. There is one expression language for each kind of
//! type: field elements, booleans, unsigned integers, arrays and structs.

use vstd::prelude::*;
use crate::field::Field;
use crate::typed_absy::identifier::{Identifier, IdentifierView};
use crate::typed_absy::types::{
    FunctionKey, FunctionKeyView, MemberId, StructType, StructTypeView, Type, TypeView, UBitwidth,
};

verus! {

/// A typed expression.
#[derive(Debug, PartialEq)]
pub enum TypedExpression<T> {
    Boolean(BooleanExpression<T>),
    FieldElement(FieldElementExpression<T>),
    Uint(UExpression<T>),
    Array(ArrayExpression<T>),
    Struct(StructExpression<T>),
}

/// An expression of type `field`.
#[derive(Debug, PartialEq)]
pub enum FieldElementExpression<T> {
    Number(T),
    Identifier(Identifier),
    Add(Box<FieldElementExpression<T>>, Box<FieldElementExpression<T>>),
    Sub(Box<FieldElementExpression<T>>, Box<FieldElementExpression<T>>),
    Mult(Box<FieldElementExpression<T>>, Box<FieldElementExpression<T>>),
    Div(Box<FieldElementExpression<T>>, Box<FieldElementExpression<T>>),
    Pow(Box<FieldElementExpression<T>>, Box<FieldElementExpression<T>>),
    IfElse(
        Box<BooleanExpression<T>>,
        Box<FieldElementExpression<T>>,
        Box<FieldElementExpression<T>>,
    ),
    FunctionCall(FunctionKey, Vec<TypedExpression<T>>),
    Member(Box<StructExpression<T>>, MemberId),
    Select(Box<ArrayExpression<T>>, Box<FieldElementExpression<T>>),
}

/// An expression of type `bool`.
#[derive(Debug, PartialEq)]
pub enum BooleanExpression<T> {
    Identifier(Identifier),
    Value(bool),
    Lt(Box<FieldElementExpression<T>>, Box<FieldElementExpression<T>>),
    Le(Box<FieldElementExpression<T>>, Box<FieldElementExpression<T>>),
    FieldEq(Box<FieldElementExpression<T>>, Box<FieldElementExpression<T>>),
    BoolEq(Box<BooleanExpression<T>>, Box<BooleanExpression<T>>),
    ArrayEq(Box<ArrayExpression<T>>, Box<ArrayExpression<T>>),
    StructEq(Box<StructExpression<T>>, Box<StructExpression<T>>),
    UintEq(Box<UExpression<T>>, Box<UExpression<T>>),
    Ge(Box<FieldElementExpression<T>>, Box<FieldElementExpression<T>>),
    Gt(Box<FieldElementExpression<T>>, Box<FieldElementExpression<T>>),
    Or(Box<BooleanExpression<T>>, Box<BooleanExpression<T>>),
    And(Box<BooleanExpression<T>>, Box<BooleanExpression<T>>),
    Not(Box<BooleanExpression<T>>),
    IfElse(Box<BooleanExpression<T>>, Box<BooleanExpression<T>>, Box<BooleanExpression<T>>),
    Member(Box<StructExpression<T>>, MemberId),
    FunctionCall(FunctionKey, Vec<TypedExpression<T>>),
    Select(Box<ArrayExpression<T>>, Box<FieldElementExpression<T>>),
}

/// An expression of an unsigned integer type, with its width.
#[derive(Debug, PartialEq)]
pub struct UExpression<T> {
    pub bitwidth: UBitwidth,
    pub inner: UExpressionInner<T>,
}

#[derive(Debug, PartialEq)]
pub enum UExpressionInner<T> {
    Identifier(Identifier),
    Value(u128),
    Add(Box<UExpression<T>>, Box<UExpression<T>>),
    Sub(Box<UExpression<T>>, Box<UExpression<T>>),
    Mult(Box<UExpression<T>>, Box<UExpression<T>>),
    Div(Box<UExpression<T>>, Box<UExpression<T>>),
    Rem(Box<UExpression<T>>, Box<UExpression<T>>),
    Xor(Box<UExpression<T>>, Box<UExpression<T>>),
    And(Box<UExpression<T>>, Box<UExpression<T>>),
    Or(Box<UExpression<T>>, Box<UExpression<T>>),
    Not(Box<UExpression<T>>),
    LeftShift(Box<UExpression<T>>, Box<FieldElementExpression<T>>),
    RightShift(Box<UExpression<T>>, Box<FieldElementExpression<T>>),
    FunctionCall(FunctionKey, Vec<TypedExpression<T>>),
    IfElse(Box<BooleanExpression<T>>, Box<UExpression<T>>, Box<UExpression<T>>),
    Member(Box<StructExpression<T>>, MemberId),
    Select(Box<ArrayExpression<T>>, Box<FieldElementExpression<T>>),
}

/// An expression of an array type, with the type of its elements and its
/// size.
#[derive(Debug, PartialEq)]
pub struct ArrayExpression<T> {
    pub size: usize,
    pub ty: Type,
    pub inner: ArrayExpressionInner<T>,
}

#[derive(Debug, PartialEq)]
pub enum ArrayExpressionInner<T> {
    Identifier(Identifier),
    Value(Vec<TypedExpression<T>>),
    FunctionCall(FunctionKey, Vec<TypedExpression<T>>),
    IfElse(Box<BooleanExpression<T>>, Box<ArrayExpression<T>>, Box<ArrayExpression<T>>),
    Member(Box<StructExpression<T>>, MemberId),
    Select(Box<ArrayExpression<T>>, Box<FieldElementExpression<T>>),
}

/// An expression of a struct type, with that type.
#[derive(Debug, PartialEq)]
pub struct StructExpression<T> {
    pub ty: StructType,
    pub inner: StructExpressionInner<T>,
}

#[derive(Debug, PartialEq)]
pub enum StructExpressionInner<T> {
    Identifier(Identifier),
    Value(Vec<TypedExpression<T>>),
    FunctionCall(FunctionKey, Vec<TypedExpression<T>>),
    IfElse(Box<BooleanExpression<T>>, Box<StructExpression<T>>, Box<StructExpression<T>>),
    Member(Box<StructExpression<T>>, MemberId),
    Select(Box<ArrayExpression<T>>, Box<FieldElementExpression<T>>),
}

/// The binary operations on field elements.
pub enum FieldOp {
    Add,
    Sub,
    Mult,
    Div,
    Pow,
}

/// The comparisons of field elements.
pub enum FieldComparison {
    Lt,
    Le,
    Eq,
    Ge,
    Gt,
}

/// The binary operations on booleans.
pub enum BooleanOp {
    Eq,
    Or,
    And,
}

/// The binary operations on unsigned integers.
pub enum UintOp {
    Add,
    Sub,
    Mult,
    Div,
    Rem,
    Xor,
    And,
    Or,
}

/// The direction of a shift.
pub enum Shift {
    Left,
    Right,
}

pub enum TypedExpressionView {
    Boolean(BooleanExpressionView),
    FieldElement(FieldElementExpressionView),
    Uint(UExpressionView),
    Array(ArrayExpressionView),
    Struct(StructExpressionView),
}

pub enum FieldElementExpressionView {
    Number(nat),
    Identifier(IdentifierView),
    Binary(FieldOp, Box<FieldElementExpressionView>, Box<FieldElementExpressionView>),
    IfElse(
        Box<BooleanExpressionView>,
        Box<FieldElementExpressionView>,
        Box<FieldElementExpressionView>,
    ),
    FunctionCall(FunctionKeyView, Seq<TypedExpressionView>),
    Member(Box<StructExpressionView>, Seq<char>),
    Select(Box<ArrayExpressionView>, Box<FieldElementExpressionView>),
}

pub enum BooleanExpressionView {
    Identifier(IdentifierView),
    Value(bool),
    Compare(FieldComparison, Box<FieldElementExpressionView>, Box<FieldElementExpressionView>),
    Binary(BooleanOp, Box<BooleanExpressionView>, Box<BooleanExpressionView>),
    ArrayEq(Box<ArrayExpressionView>, Box<ArrayExpressionView>),
    StructEq(Box<StructExpressionView>, Box<StructExpressionView>),
    UintEq(Box<UExpressionView>, Box<UExpressionView>),
    Not(Box<BooleanExpressionView>),
    IfElse(Box<BooleanExpressionView>, Box<BooleanExpressionView>, Box<BooleanExpressionView>),
    Member(Box<StructExpressionView>, Seq<char>),
    FunctionCall(FunctionKeyView, Seq<TypedExpressionView>),
    Select(Box<ArrayExpressionView>, Box<FieldElementExpressionView>),
}

pub struct UExpressionView {
    pub bitwidth: UBitwidth,
    pub inner: UExpressionInnerView,
}

pub enum UExpressionInnerView {
    Identifier(IdentifierView),
    Value(u128),
    Binary(UintOp, Box<UExpressionView>, Box<UExpressionView>),
    Not(Box<UExpressionView>),
    Shift(Shift, Box<UExpressionView>, Box<FieldElementExpressionView>),
    FunctionCall(FunctionKeyView, Seq<TypedExpressionView>),
    IfElse(Box<BooleanExpressionView>, Box<UExpressionView>, Box<UExpressionView>),
    Member(Box<StructExpressionView>, Seq<char>),
    Select(Box<ArrayExpressionView>, Box<FieldElementExpressionView>),
}

pub struct ArrayExpressionView {
    pub size: nat,
    pub ty: TypeView,
    pub inner: ArrayExpressionInnerView,
}

pub enum ArrayExpressionInnerView {
    Identifier(IdentifierView),
    Value(Seq<TypedExpressionView>),
    FunctionCall(FunctionKeyView, Seq<TypedExpressionView>),
    IfElse(Box<BooleanExpressionView>, Box<ArrayExpressionView>, Box<ArrayExpressionView>),
    Member(Box<StructExpressionView>, Seq<char>),
    Select(Box<ArrayExpressionView>, Box<FieldElementExpressionView>),
}

pub struct StructExpressionView {
    pub ty: StructTypeView,
    pub inner: StructExpressionInnerView,
}

pub enum StructExpressionInnerView {
    Identifier(IdentifierView),
    Value(Seq<TypedExpressionView>),
    FunctionCall(FunctionKeyView, Seq<TypedExpressionView>),
    IfElse(Box<BooleanExpressionView>, Box<StructExpressionView>, Box<StructExpressionView>),
    Member(Box<StructExpressionView>, Seq<char>),
    Select(Box<ArrayExpressionView>, Box<FieldElementExpressionView>),
}

/// The views of a list of typed expressions.
pub open spec fn expressions_model<T: Field>(
    list: &Vec<TypedExpression<T>>,
) -> Seq<TypedExpressionView>
    decreases list,
{
    Seq::new(
        list.len() as nat,
        |i: int|
            if 0 <= i < list.len() {
                list[i].model()
            } else {
                arbitrary()
            },
    )
}

impl<T: Field> TypedExpression<T> {
    pub open spec fn model(&self) -> TypedExpressionView
        decreases self,
    {
        match self {
            TypedExpression::Boolean(e) => TypedExpressionView::Boolean(e.model()),
            TypedExpression::FieldElement(e) => TypedExpressionView::FieldElement(e.model()),
            TypedExpression::Uint(e) => TypedExpressionView::Uint(e.model()),
            TypedExpression::Array(e) => TypedExpressionView::Array(e.model()),
            TypedExpression::Struct(e) => TypedExpressionView::Struct(e.model()),
        }
    }
}

impl<T: Field> FieldElementExpression<T> {
    pub open spec fn model(&self) -> FieldElementExpressionView
        decreases self,
    {
        match self {
            FieldElementExpression::Number(n) => FieldElementExpressionView::Number(n.value()),
            FieldElementExpression::Identifier(id) => FieldElementExpressionView::Identifier(id@),
            FieldElementExpression::Add(a, b) => FieldElementExpressionView::Binary(
                FieldOp::Add,
                Box::new(a.model()),
                Box::new(b.model()),
            ),
            FieldElementExpression::Sub(a, b) => FieldElementExpressionView::Binary(
                FieldOp::Sub,
                Box::new(a.model()),
                Box::new(b.model()),
            ),
            FieldElementExpression::Mult(a, b) => FieldElementExpressionView::Binary(
                FieldOp::Mult,
                Box::new(a.model()),
                Box::new(b.model()),
            ),
            FieldElementExpression::Div(a, b) => FieldElementExpressionView::Binary(
                FieldOp::Div,
                Box::new(a.model()),
                Box::new(b.model()),
            ),
            FieldElementExpression::Pow(a, b) => FieldElementExpressionView::Binary(
                FieldOp::Pow,
                Box::new(a.model()),
                Box::new(b.model()),
            ),
            FieldElementExpression::IfElse(c, a, b) => FieldElementExpressionView::IfElse(
                Box::new(c.model()),
                Box::new(a.model()),
                Box::new(b.model()),
            ),
            FieldElementExpression::FunctionCall(k, args) => {
                FieldElementExpressionView::FunctionCall(k@, expressions_model(args))
            },
            FieldElementExpression::Member(s, m) => FieldElementExpressionView::Member(
                Box::new(s.model()),
                m@,
            ),
            FieldElementExpression::Select(a, i) => FieldElementExpressionView::Select(
                Box::new(a.model()),
                Box::new(i.model()),
            ),
        }
    }
}

impl<T: Field> BooleanExpression<T> {
    pub open spec fn model(&self) -> BooleanExpressionView
        decreases self,
    {
        match self {
            BooleanExpression::Identifier(id) => BooleanExpressionView::Identifier(id@),
            BooleanExpression::Value(b) => BooleanExpressionView::Value(*b),
            BooleanExpression::Lt(a, b) => BooleanExpressionView::Compare(
                FieldComparison::Lt,
                Box::new(a.model()),
                Box::new(b.model()),
            ),
            BooleanExpression::Le(a, b) => BooleanExpressionView::Compare(
                FieldComparison::Le,
                Box::new(a.model()),
                Box::new(b.model()),
            ),
            BooleanExpression::FieldEq(a, b) => BooleanExpressionView::Compare(
                FieldComparison::Eq,
                Box::new(a.model()),
                Box::new(b.model()),
            ),
            BooleanExpression::Ge(a, b) => BooleanExpressionView::Compare(
                FieldComparison::Ge,
                Box::new(a.model()),
                Box::new(b.model()),
            ),
            BooleanExpression::Gt(a, b) => BooleanExpressionView::Compare(
                FieldComparison::Gt,
                Box::new(a.model()),
                Box::new(b.model()),
            ),
            BooleanExpression::BoolEq(a, b) => BooleanExpressionView::Binary(
                BooleanOp::Eq,
                Box::new(a.model()),
                Box::new(b.model()),
            ),
            BooleanExpression::Or(a, b) => BooleanExpressionView::Binary(
                BooleanOp::Or,
                Box::new(a.model()),
                Box::new(b.model()),
            ),
            BooleanExpression::And(a, b) => BooleanExpressionView::Binary(
                BooleanOp::And,
                Box::new(a.model()),
                Box::new(b.model()),
            ),
            BooleanExpression::ArrayEq(a, b) => BooleanExpressionView::ArrayEq(
                Box::new(a.model()),
                Box::new(b.model()),
            ),
            BooleanExpression::StructEq(a, b) => BooleanExpressionView::StructEq(
                Box::new(a.model()),
                Box::new(b.model()),
            ),
            BooleanExpression::UintEq(a, b) => BooleanExpressionView::UintEq(
                Box::new(a.model()),
                Box::new(b.model()),
            ),
            BooleanExpression::Not(a) => BooleanExpressionView::Not(Box::new(a.model())),
            BooleanExpression::IfElse(c, a, b) => BooleanExpressionView::IfElse(
                Box::new(c.model()),
                Box::new(a.model()),
                Box::new(b.model()),
            ),
            BooleanExpression::Member(s, m) => BooleanExpressionView::Member(
                Box::new(s.model()),
                m@,
            ),
            BooleanExpression::FunctionCall(k, args) => BooleanExpressionView::FunctionCall(
                k@,
                expressions_model(args),
            ),
            BooleanExpression::Select(a, i) => BooleanExpressionView::Select(
                Box::new(a.model()),
                Box::new(i.model()),
            ),
        }
    }
}

impl<T: Field> UExpression<T> {
    pub open spec fn model(&self) -> UExpressionView
        decreases self,
    {
        UExpressionView { bitwidth: self.bitwidth, inner: self.inner.model() }
    }
}

impl<T: Field> UExpressionInner<T> {
    pub open spec fn model(&self) -> UExpressionInnerView
        decreases self,
    {
        match self {
            UExpressionInner::Identifier(id) => UExpressionInnerView::Identifier(id@),
            UExpressionInner::Value(v) => UExpressionInnerView::Value(*v),
            UExpressionInner::Add(a, b) => UExpressionInnerView::Binary(
                UintOp::Add,
                Box::new(a.model()),
                Box::new(b.model()),
            ),
            UExpressionInner::Sub(a, b) => UExpressionInnerView::Binary(
                UintOp::Sub,
                Box::new(a.model()),
                Box::new(b.model()),
            ),
            UExpressionInner::Mult(a, b) => UExpressionInnerView::Binary(
                UintOp::Mult,
                Box::new(a.model()),
                Box::new(b.model()),
            ),
            UExpressionInner::Div(a, b) => UExpressionInnerView::Binary(
                UintOp::Div,
                Box::new(a.model()),
                Box::new(b.model()),
            ),
            UExpressionInner::Rem(a, b) => UExpressionInnerView::Binary(
                UintOp::Rem,
                Box::new(a.model()),
                Box::new(b.model()),
            ),
            UExpressionInner::Xor(a, b) => UExpressionInnerView::Binary(
                UintOp::Xor,
                Box::new(a.model()),
                Box::new(b.model()),
            ),
            UExpressionInner::And(a, b) => UExpressionInnerView::Binary(
                UintOp::And,
                Box::new(a.model()),
                Box::new(b.model()),
            ),
            UExpressionInner::Or(a, b) => UExpressionInnerView::Binary(
                UintOp::Or,
                Box::new(a.model()),
                Box::new(b.model()),
            ),
            UExpressionInner::Not(a) => UExpressionInnerView::Not(Box::new(a.model())),
            UExpressionInner::LeftShift(a, by) => UExpressionInnerView::Shift(
                Shift::Left,
                Box::new(a.model()),
                Box::new(by.model()),
            ),
            UExpressionInner::RightShift(a, by) => UExpressionInnerView::Shift(
                Shift::Right,
                Box::new(a.model()),
                Box::new(by.model()),
            ),
            UExpressionInner::FunctionCall(k, args) => UExpressionInnerView::FunctionCall(
                k@,
                expressions_model(args),
            ),
            UExpressionInner::IfElse(c, a, b) => UExpressionInnerView::IfElse(
                Box::new(c.model()),
                Box::new(a.model()),
                Box::new(b.model()),
            ),
            UExpressionInner::Member(s, m) => UExpressionInnerView::Member(
                Box::new(s.model()),
                m@,
            ),
            UExpressionInner::Select(a, i) => UExpressionInnerView::Select(
                Box::new(a.model()),
                Box::new(i.model()),
            ),
        }
    }
}

impl<T: Field> ArrayExpression<T> {
    pub open spec fn model(&self) -> ArrayExpressionView
        decreases self,
    {
        ArrayExpressionView { size: self.size as nat, ty: self.ty@, inner: self.inner.model() }
    }
}

impl<T: Field> ArrayExpressionInner<T> {
    pub open spec fn model(&self) -> ArrayExpressionInnerView
        decreases self,
    {
        match self {
            ArrayExpressionInner::Identifier(id) => ArrayExpressionInnerView::Identifier(id@),
            ArrayExpressionInner::Value(v) => ArrayExpressionInnerView::Value(
                expressions_model(v),
            ),
            ArrayExpressionInner::FunctionCall(k, args) => ArrayExpressionInnerView::FunctionCall(
                k@,
                expressions_model(args),
            ),
            ArrayExpressionInner::IfElse(c, a, b) => ArrayExpressionInnerView::IfElse(
                Box::new(c.model()),
                Box::new(a.model()),
                Box::new(b.model()),
            ),
            ArrayExpressionInner::Member(s, m) => ArrayExpressionInnerView::Member(
                Box::new(s.model()),
                m@,
            ),
            ArrayExpressionInner::Select(a, i) => ArrayExpressionInnerView::Select(
                Box::new(a.model()),
                Box::new(i.model()),
            ),
        }
    }
}

impl<T: Field> StructExpression<T> {
    pub open spec fn model(&self) -> StructExpressionView
        decreases self,
    {
        StructExpressionView { ty: self.ty@, inner: self.inner.model() }
    }
}

impl<T: Field> StructExpressionInner<T> {
    pub open spec fn model(&self) -> StructExpressionInnerView
        decreases self,
    {
        match self {
            StructExpressionInner::Identifier(id) => StructExpressionInnerView::Identifier(id@),
            StructExpressionInner::Value(v) => StructExpressionInnerView::Value(
                expressions_model(v),
            ),
            StructExpressionInner::FunctionCall(k, args) => {
                StructExpressionInnerView::FunctionCall(k@, expressions_model(args))
            },
            StructExpressionInner::IfElse(c, a, b) => StructExpressionInnerView::IfElse(
                Box::new(c.model()),
                Box::new(a.model()),
                Box::new(b.model()),
            ),
            StructExpressionInner::Member(s, m) => StructExpressionInnerView::Member(
                Box::new(s.model()),
                m@,
            ),
            StructExpressionInner::Select(a, i) => StructExpressionInnerView::Select(
                Box::new(a.model()),
                Box::new(i.model()),
            ),
        }
    }
}

impl<T: Field> View for TypedExpression<T> {
    type V = TypedExpressionView;

    open spec fn view(&self) -> TypedExpressionView {
        self.model()
    }
}

impl<T: Field> View for FieldElementExpression<T> {
    type V = FieldElementExpressionView;

    open spec fn view(&self) -> FieldElementExpressionView {
        self.model()
    }
}

impl<T: Field> View for BooleanExpression<T> {
    type V = BooleanExpressionView;

    open spec fn view(&self) -> BooleanExpressionView {
        self.model()
    }
}

impl<T: Field> View for UExpression<T> {
    type V = UExpressionView;

    open spec fn view(&self) -> UExpressionView {
        self.model()
    }
}

impl<T: Field> View for UExpressionInner<T> {
    type V = UExpressionInnerView;

    open spec fn view(&self) -> UExpressionInnerView {
        self.model()
    }
}

impl<T: Field> View for ArrayExpression<T> {
    type V = ArrayExpressionView;

    open spec fn view(&self) -> ArrayExpressionView {
        self.model()
    }
}

impl<T: Field> View for ArrayExpressionInner<T> {
    type V = ArrayExpressionInnerView;

    open spec fn view(&self) -> ArrayExpressionInnerView {
        self.model()
    }
}

impl<T: Field> View for StructExpression<T> {
    type V = StructExpressionView;

    open spec fn view(&self) -> StructExpressionView {
        self.model()
    }
}

impl<T: Field> View for StructExpressionInner<T> {
    type V = StructExpressionInnerView;

    open spec fn view(&self) -> StructExpressionInnerView {
        self.model()
    }
}

impl TypedExpressionView {
    /// The type of the expression.
    pub open spec fn get_type(self) -> TypeView {
        match self {
            TypedExpressionView::Boolean(_) => TypeView::Boolean,
            TypedExpressionView::FieldElement(_) => TypeView::FieldElement,
            TypedExpressionView::Uint(e) => TypeView::Uint(e.bitwidth),
            TypedExpressionView::Array(e) => e.get_type(),
            TypedExpressionView::Struct(e) => TypeView::Struct(e.ty),
        }
    }
}

impl ArrayExpressionView {
    /// The type of the expression: arrays of its size of its element type.
    pub open spec fn get_type(self) -> TypeView {
        TypeView::Array(Box::new(self.ty), self.size)
    }
}

/// The types of a list of typed expressions.
pub open spec fn expression_types(list: Seq<TypedExpressionView>) -> Seq<TypeView> {
    Seq::new(list.len(), |i: int| list[i].get_type())
}

} // verus!
