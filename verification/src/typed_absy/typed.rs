//! What typed expressions have in common: each has a type, and each kind of
//! expression has a conditional, an array element and a struct member.

use vstd::prelude::*;
use crate::field::Field;
use crate::typed_absy::expression::{
    ArrayExpression, ArrayExpressionInner, ArrayExpressionInnerView, ArrayExpressionView,
    BooleanExpression, BooleanExpressionView, FieldElementExpression, FieldElementExpressionView,
    Shift, StructExpression, StructExpressionInner, StructExpressionInnerView,
    StructExpressionView, TypedExpression, TypedExpressionView, UExpression, UExpressionInner,
    UExpressionInnerView, UExpressionView, UintOp,
};
use crate::typed_absy::types::{MemberId, StructType, Type, TypeView, UBitwidth};

verus! {

/// Something that has a type.
pub trait Typed {
    /// Whether the type can be read off: an expression always has a type, an
    /// assignee only if it selects from arrays and structs in the right way.
    spec fn typed(&self) -> bool;

    /// The type.
    spec fn type_view(&self) -> TypeView;

    fn get_type(&self) -> (r: Type)
        requires
            self.typed(),
        ensures
            r@ == self.type_view(),
    ;
}

/// Something that has several types.
pub trait MultiTyped {
    spec fn types_view(&self) -> Seq<TypeView>;

    fn get_types(&self) -> (r: &Vec<Type>)
        ensures
            crate::typed_absy::types::types_view(r@) == self.types_view(),
    ;
}

impl<T: Field> Typed for TypedExpression<T> {
    open spec fn typed(&self) -> bool {
        true
    }

    open spec fn type_view(&self) -> TypeView {
        self@.get_type()
    }

    fn get_type(&self) -> (r: Type) {
        match self {
            TypedExpression::Boolean(_) => Type::Boolean,
            TypedExpression::FieldElement(_) => Type::FieldElement,
            TypedExpression::Uint(e) => Type::Uint(e.bitwidth),
            TypedExpression::Array(e) => Type::array(e.ty.clone(), e.size),
            TypedExpression::Struct(e) => Type::Struct(e.ty.clone()),
        }
    }
}

impl<T: Field> Typed for ArrayExpression<T> {
    open spec fn typed(&self) -> bool {
        true
    }

    open spec fn type_view(&self) -> TypeView {
        self@.get_type()
    }

    fn get_type(&self) -> (r: Type) {
        Type::array(self.ty.clone(), self.size)
    }
}

impl<T: Field> Typed for StructExpression<T> {
    open spec fn typed(&self) -> bool {
        true
    }

    open spec fn type_view(&self) -> TypeView {
        TypeView::Struct(self@.ty)
    }

    fn get_type(&self) -> (r: Type) {
        Type::Struct(self.ty.clone())
    }
}

impl<T: Field> Typed for FieldElementExpression<T> {
    open spec fn typed(&self) -> bool {
        true
    }

    open spec fn type_view(&self) -> TypeView {
        TypeView::FieldElement
    }

    fn get_type(&self) -> (r: Type) {
        Type::FieldElement
    }
}

impl<T: Field> Typed for UExpression<T> {
    open spec fn typed(&self) -> bool {
        true
    }

    open spec fn type_view(&self) -> TypeView {
        TypeView::Uint(self.bitwidth)
    }

    fn get_type(&self) -> (r: Type) {
        Type::Uint(self.bitwidth)
    }
}

impl<T: Field> Typed for BooleanExpression<T> {
    open spec fn typed(&self) -> bool {
        true
    }

    open spec fn type_view(&self) -> TypeView {
        TypeView::Boolean
    }

    fn get_type(&self) -> (r: Type) {
        Type::Boolean
    }
}

impl<T: Field> ArrayExpressionInner<T> {
    /// The expression, with the type of its elements and its size.
    pub fn annotate(self, ty: Type, size: usize) -> (r: ArrayExpression<T>)
        ensures
            r@ == (ArrayExpressionView { size: size as nat, ty: ty@, inner: self@ }),
    {
        ArrayExpression { size, ty, inner: self }
    }
}

impl<T: Field> ArrayExpression<T> {
    /// The type of the elements.
    pub fn inner_type(&self) -> (r: &Type)
        ensures
            r@ == self@.ty,
    {
        &self.ty
    }

    pub fn size(&self) -> (r: usize)
        ensures
            r == self@.size,
    {
        self.size
    }

    pub fn as_inner(&self) -> (r: &ArrayExpressionInner<T>)
        ensures
            *r == self.inner,
    {
        &self.inner
    }

    pub fn as_inner_mut(&mut self) -> (r: &mut ArrayExpressionInner<T>)
        ensures
            *r == old(self).inner,
            *final(self) == (ArrayExpression { inner: *final(r), ..*old(self) }),
    {
        &mut self.inner
    }

    pub fn into_inner(self) -> (r: ArrayExpressionInner<T>)
        ensures
            r == self.inner,
    {
        self.inner
    }
}

impl<T: Field> StructExpressionInner<T> {
    /// The expression, with its type.
    pub fn annotate(self, ty: StructType) -> (r: StructExpression<T>)
        ensures
            r@ == (StructExpressionView { ty: ty@, inner: self@ }),
    {
        StructExpression { ty, inner: self }
    }
}

impl<T: Field> StructExpression<T> {
    pub fn ty(&self) -> (r: &StructType)
        ensures
            r@ == self@.ty,
    {
        &self.ty
    }

    pub fn as_inner(&self) -> (r: &StructExpressionInner<T>)
        ensures
            *r == self.inner,
    {
        &self.inner
    }

    pub fn as_inner_mut(&mut self) -> (r: &mut StructExpressionInner<T>)
        ensures
            *r == old(self).inner,
            *final(self) == (StructExpression { inner: *final(r), ..*old(self) }),
    {
        &mut self.inner
    }

    pub fn into_inner(self) -> (r: StructExpressionInner<T>)
        ensures
            r == self.inner,
    {
        self.inner
    }
}

impl<T: Field> UExpressionInner<T> {
    /// The expression, with its width.
    pub fn annotate(self, bitwidth: UBitwidth) -> (r: UExpression<T>)
        ensures
            r@ == (UExpressionView { bitwidth, inner: self@ }),
    {
        UExpression { bitwidth, inner: self }
    }
}

impl UExpressionView {
    /// A binary operation on two operands of one width.
    pub open spec fn binary(op: UintOp, a: UExpressionView, b: UExpressionView) -> UExpressionView {
        UExpressionView {
            bitwidth: a.bitwidth,
            inner: UExpressionInnerView::Binary(op, Box::new(a), Box::new(b)),
        }
    }

    /// A shift by a number of places.
    pub open spec fn shift(
        op: Shift,
        a: UExpressionView,
        by: FieldElementExpressionView,
    ) -> UExpressionView {
        UExpressionView {
            bitwidth: a.bitwidth,
            inner: UExpressionInnerView::Shift(op, Box::new(a), Box::new(by)),
        }
    }

    /// The bitwise complement.
    pub open spec fn not(a: UExpressionView) -> UExpressionView {
        UExpressionView { bitwidth: a.bitwidth, inner: UExpressionInnerView::Not(Box::new(a)) }
    }
}

impl<T: Field> UExpression<T> {
    pub fn bitwidth(&self) -> (r: UBitwidth)
        ensures
            r == self.bitwidth,
    {
        self.bitwidth
    }

    pub fn as_inner(&self) -> (r: &UExpressionInner<T>)
        ensures
            *r == self.inner,
    {
        &self.inner
    }

    pub fn into_inner(self) -> (r: UExpressionInner<T>)
        ensures
            r == self.inner,
    {
        self.inner
    }

    pub fn add(self, other: Self) -> (r: Self)
        requires
            self.bitwidth == other.bitwidth,
        ensures
            r@ == UExpressionView::binary(UintOp::Add, self@, other@),
    {
        let bitwidth = self.bitwidth;
        UExpressionInner::Add(Box::new(self), Box::new(other)).annotate(bitwidth)
    }

    pub fn sub(self, other: Self) -> (r: Self)
        requires
            self.bitwidth == other.bitwidth,
        ensures
            r@ == UExpressionView::binary(UintOp::Sub, self@, other@),
    {
        let bitwidth = self.bitwidth;
        UExpressionInner::Sub(Box::new(self), Box::new(other)).annotate(bitwidth)
    }

    pub fn mult(self, other: Self) -> (r: Self)
        requires
            self.bitwidth == other.bitwidth,
        ensures
            r@ == UExpressionView::binary(UintOp::Mult, self@, other@),
    {
        let bitwidth = self.bitwidth;
        UExpressionInner::Mult(Box::new(self), Box::new(other)).annotate(bitwidth)
    }

    pub fn div(self, other: Self) -> (r: Self)
        requires
            self.bitwidth == other.bitwidth,
        ensures
            r@ == UExpressionView::binary(UintOp::Div, self@, other@),
    {
        let bitwidth = self.bitwidth;
        UExpressionInner::Div(Box::new(self), Box::new(other)).annotate(bitwidth)
    }

    pub fn rem(self, other: Self) -> (r: Self)
        requires
            self.bitwidth == other.bitwidth,
        ensures
            r@ == UExpressionView::binary(UintOp::Rem, self@, other@),
    {
        let bitwidth = self.bitwidth;
        UExpressionInner::Rem(Box::new(self), Box::new(other)).annotate(bitwidth)
    }

    pub fn xor(self, other: Self) -> (r: Self)
        requires
            self.bitwidth == other.bitwidth,
        ensures
            r@ == UExpressionView::binary(UintOp::Xor, self@, other@),
    {
        let bitwidth = self.bitwidth;
        UExpressionInner::Xor(Box::new(self), Box::new(other)).annotate(bitwidth)
    }

    pub fn and(self, other: Self) -> (r: Self)
        requires
            self.bitwidth == other.bitwidth,
        ensures
            r@ == UExpressionView::binary(UintOp::And, self@, other@),
    {
        let bitwidth = self.bitwidth;
        UExpressionInner::And(Box::new(self), Box::new(other)).annotate(bitwidth)
    }

    pub fn or(self, other: Self) -> (r: Self)
        requires
            self.bitwidth == other.bitwidth,
        ensures
            r@ == UExpressionView::binary(UintOp::Or, self@, other@),
    {
        let bitwidth = self.bitwidth;
        UExpressionInner::Or(Box::new(self), Box::new(other)).annotate(bitwidth)
    }

    pub fn not(self) -> (r: Self)
        ensures
            r@ == UExpressionView::not(self@),
    {
        let bitwidth = self.bitwidth;
        UExpressionInner::Not(Box::new(self)).annotate(bitwidth)
    }

    pub fn left_shift(self, by: FieldElementExpression<T>) -> (r: Self)
        ensures
            r@ == UExpressionView::shift(Shift::Left, self@, by@),
    {
        let bitwidth = self.bitwidth;
        UExpressionInner::LeftShift(Box::new(self), Box::new(by)).annotate(bitwidth)
    }

    pub fn right_shift(self, by: FieldElementExpression<T>) -> (r: Self)
        ensures
            r@ == UExpressionView::shift(Shift::Right, self@, by@),
    {
        let bitwidth = self.bitwidth;
        UExpressionInner::RightShift(Box::new(self), Box::new(by)).annotate(bitwidth)
    }
}

impl<T: Field> TypedExpression<T> {
    pub fn from_boolean(e: BooleanExpression<T>) -> (r: Self)
        ensures
            r@ == TypedExpressionView::Boolean(e@),
    {
        TypedExpression::Boolean(e)
    }

    pub fn from_field(e: FieldElementExpression<T>) -> (r: Self)
        ensures
            r@ == TypedExpressionView::FieldElement(e@),
    {
        TypedExpression::FieldElement(e)
    }

    pub fn from_uint(e: UExpression<T>) -> (r: Self)
        ensures
            r@ == TypedExpressionView::Uint(e@),
    {
        TypedExpression::Uint(e)
    }

    pub fn from_array(e: ArrayExpression<T>) -> (r: Self)
        ensures
            r@ == TypedExpressionView::Array(e@),
    {
        TypedExpression::Array(e)
    }

    pub fn from_struct(e: StructExpression<T>) -> (r: Self)
        ensures
            r@ == TypedExpressionView::Struct(e@),
    {
        TypedExpression::Struct(e)
    }
}

impl<T: Field> FieldElementExpression<T> {
    /// The expression as a field expression, if it is one.
    pub fn try_from(te: TypedExpression<T>) -> (r: Result<Self, ()>)
        ensures
            match te {
                TypedExpression::FieldElement(e) => r == Ok::<Self, ()>(e),
                _ => r is Err,
            },
    {
        match te {
            TypedExpression::FieldElement(e) => Ok(e),
            _ => Err(()),
        }
    }
}

impl<T: Field> BooleanExpression<T> {
    /// The expression as a boolean expression, if it is one.
    pub fn try_from(te: TypedExpression<T>) -> (r: Result<Self, ()>)
        ensures
            match te {
                TypedExpression::Boolean(e) => r == Ok::<Self, ()>(e),
                _ => r is Err,
            },
    {
        match te {
            TypedExpression::Boolean(e) => Ok(e),
            _ => Err(()),
        }
    }
}

impl<T: Field> UExpression<T> {
    /// The expression as an unsigned integer expression, if it is one.
    pub fn try_from(te: TypedExpression<T>) -> (r: Result<Self, ()>)
        ensures
            match te {
                TypedExpression::Uint(e) => r == Ok::<Self, ()>(e),
                _ => r is Err,
            },
    {
        match te {
            TypedExpression::Uint(e) => Ok(e),
            _ => Err(()),
        }
    }
}

impl<T: Field> ArrayExpression<T> {
    /// The expression as an array expression, if it is one.
    pub fn try_from(te: TypedExpression<T>) -> (r: Result<Self, ()>)
        ensures
            match te {
                TypedExpression::Array(e) => r == Ok::<Self, ()>(e),
                _ => r is Err,
            },
    {
        match te {
            TypedExpression::Array(e) => Ok(e),
            _ => Err(()),
        }
    }
}

impl<T: Field> StructExpression<T> {
    /// The expression as a struct expression, if it is one.
    pub fn try_from(te: TypedExpression<T>) -> (r: Result<Self, ()>)
        ensures
            match te {
                TypedExpression::Struct(e) => r == Ok::<Self, ()>(e),
                _ => r is Err,
            },
    {
        match te {
            TypedExpression::Struct(e) => Ok(e),
            _ => Err(()),
        }
    }
}

/// The element of `array` at `index`, as an expression of the element type.
/// For an element type that has no expression of that kind at hand the
/// result is a field expression.
pub open spec fn select_view(
    array: ArrayExpressionView,
    index: FieldElementExpressionView,
) -> TypedExpressionView {
    match array.ty {
        TypeView::FieldElement => TypedExpressionView::FieldElement(
            FieldElementExpressionView::Select(Box::new(array), Box::new(index)),
        ),
        TypeView::Boolean => TypedExpressionView::Boolean(
            BooleanExpressionView::Select(Box::new(array), Box::new(index)),
        ),
        TypeView::Uint(w) => TypedExpressionView::Uint(
            UExpressionView {
                bitwidth: w,
                inner: UExpressionInnerView::Select(Box::new(array), Box::new(index)),
            },
        ),
        TypeView::Array(ty, size) => TypedExpressionView::Array(
            ArrayExpressionView {
                size,
                ty: *ty,
                inner: ArrayExpressionInnerView::Select(Box::new(array), Box::new(index)),
            },
        ),
        TypeView::Struct(s) => TypedExpressionView::Struct(
            StructExpressionView {
                ty: s,
                inner: StructExpressionInnerView::Select(Box::new(array), Box::new(index)),
            },
        ),
    }
}

/// The member `id` of `s`, as an expression of type `ty`.
pub open spec fn member_view(
    s: StructExpressionView,
    id: Seq<char>,
    ty: TypeView,
) -> TypedExpressionView {
    match ty {
        TypeView::FieldElement => TypedExpressionView::FieldElement(
            FieldElementExpressionView::Member(Box::new(s), id),
        ),
        TypeView::Boolean => TypedExpressionView::Boolean(
            BooleanExpressionView::Member(Box::new(s), id),
        ),
        TypeView::Uint(w) => TypedExpressionView::Uint(
            UExpressionView { bitwidth: w, inner: UExpressionInnerView::Member(Box::new(s), id) },
        ),
        TypeView::Array(ty, size) => TypedExpressionView::Array(
            ArrayExpressionView {
                size,
                ty: *ty,
                inner: ArrayExpressionInnerView::Member(Box::new(s), id),
            },
        ),
        TypeView::Struct(st) => TypedExpressionView::Struct(
            StructExpressionView { ty: st, inner: StructExpressionInnerView::Member(Box::new(s), id) },
        ),
    }
}

/// A kind of expression that has a conditional.
pub trait IfElse<T: Field>: View + Sized {
    /// The conditional, given the views of its parts.
    spec fn if_else_view(c: BooleanExpressionView, a: Self::V, b: Self::V) -> Self::V;

    fn if_else(condition: BooleanExpression<T>, consequence: Self, alternative: Self) -> (r: Self)
        ensures
            r@ == Self::if_else_view(condition@, consequence@, alternative@),
    ;
}

/// A kind of expression that can be an element of an array.
pub trait Select<T: Field>: View + Sized {
    /// Whether the elements of `array` are expressions of this kind.
    spec fn selects_from(array: ArrayExpressionView) -> bool;

    /// The element, given the views of the array and the index.
    spec fn select_view(array: ArrayExpressionView, index: FieldElementExpressionView) -> Self::V;

    fn select(array: ArrayExpression<T>, index: FieldElementExpression<T>) -> (r: Self)
        requires
            Self::selects_from(array@),
        ensures
            r@ == Self::select_view(array@, index@),
    ;
}

/// A kind of expression that can be a member of a struct.
pub trait Member<T: Field>: View + Sized {
    /// Whether the member `id` of `s` is an expression of this kind.
    spec fn member_of(s: StructExpressionView, id: Seq<char>) -> bool;

    /// The member, given the view of the struct and the name.
    spec fn member_view(s: StructExpressionView, id: Seq<char>) -> Self::V;

    fn member(s: StructExpression<T>, member_id: MemberId) -> (r: Self)
        requires
            Self::member_of(s@, member_id@),
        ensures
            r@ == Self::member_view(s@, member_id@),
    ;
}

impl<T: Field> IfElse<T> for FieldElementExpression<T> {
    open spec fn if_else_view(
        c: BooleanExpressionView,
        a: FieldElementExpressionView,
        b: FieldElementExpressionView,
    ) -> FieldElementExpressionView {
        FieldElementExpressionView::IfElse(Box::new(c), Box::new(a), Box::new(b))
    }

    fn if_else(condition: BooleanExpression<T>, consequence: Self, alternative: Self) -> (r:
        Self) {
        FieldElementExpression::IfElse(
            Box::new(condition),
            Box::new(consequence),
            Box::new(alternative),
        )
    }
}

impl<T: Field> IfElse<T> for BooleanExpression<T> {
    open spec fn if_else_view(
        c: BooleanExpressionView,
        a: BooleanExpressionView,
        b: BooleanExpressionView,
    ) -> BooleanExpressionView {
        BooleanExpressionView::IfElse(Box::new(c), Box::new(a), Box::new(b))
    }

    fn if_else(condition: BooleanExpression<T>, consequence: Self, alternative: Self) -> (r:
        Self) {
        BooleanExpression::IfElse(
            Box::new(condition),
            Box::new(consequence),
            Box::new(alternative),
        )
    }
}

impl<T: Field> IfElse<T> for UExpression<T> {
    open spec fn if_else_view(
        c: BooleanExpressionView,
        a: UExpressionView,
        b: UExpressionView,
    ) -> UExpressionView {
        UExpressionView {
            bitwidth: a.bitwidth,
            inner: UExpressionInnerView::IfElse(Box::new(c), Box::new(a), Box::new(b)),
        }
    }

    fn if_else(condition: BooleanExpression<T>, consequence: Self, alternative: Self) -> (r:
        Self) {
        let bitwidth = consequence.bitwidth;
        UExpressionInner::IfElse(
            Box::new(condition),
            Box::new(consequence),
            Box::new(alternative),
        ).annotate(bitwidth)
    }
}

impl<T: Field> IfElse<T> for ArrayExpression<T> {
    open spec fn if_else_view(
        c: BooleanExpressionView,
        a: ArrayExpressionView,
        b: ArrayExpressionView,
    ) -> ArrayExpressionView {
        ArrayExpressionView {
            size: a.size,
            ty: a.ty,
            inner: ArrayExpressionInnerView::IfElse(Box::new(c), Box::new(a), Box::new(b)),
        }
    }

    fn if_else(condition: BooleanExpression<T>, consequence: Self, alternative: Self) -> (r:
        Self) {
        let ty = consequence.inner_type().clone();
        let size = consequence.size();
        ArrayExpressionInner::IfElse(
            Box::new(condition),
            Box::new(consequence),
            Box::new(alternative),
        ).annotate(ty, size)
    }
}

impl<T: Field> IfElse<T> for StructExpression<T> {
    open spec fn if_else_view(
        c: BooleanExpressionView,
        a: StructExpressionView,
        b: StructExpressionView,
    ) -> StructExpressionView {
        StructExpressionView {
            ty: a.ty,
            inner: StructExpressionInnerView::IfElse(Box::new(c), Box::new(a), Box::new(b)),
        }
    }

    fn if_else(condition: BooleanExpression<T>, consequence: Self, alternative: Self) -> (r:
        Self) {
        let ty = consequence.ty().clone();
        StructExpressionInner::IfElse(
            Box::new(condition),
            Box::new(consequence),
            Box::new(alternative),
        ).annotate(ty)
    }
}

impl<T: Field> Select<T> for FieldElementExpression<T> {
    open spec fn selects_from(array: ArrayExpressionView) -> bool {
        true
    }

    open spec fn select_view(
        array: ArrayExpressionView,
        index: FieldElementExpressionView,
    ) -> FieldElementExpressionView {
        FieldElementExpressionView::Select(Box::new(array), Box::new(index))
    }

    fn select(array: ArrayExpression<T>, index: FieldElementExpression<T>) -> (r: Self) {
        FieldElementExpression::Select(Box::new(array), Box::new(index))
    }
}

impl<T: Field> Select<T> for BooleanExpression<T> {
    open spec fn selects_from(array: ArrayExpressionView) -> bool {
        true
    }

    open spec fn select_view(
        array: ArrayExpressionView,
        index: FieldElementExpressionView,
    ) -> BooleanExpressionView {
        BooleanExpressionView::Select(Box::new(array), Box::new(index))
    }

    fn select(array: ArrayExpression<T>, index: FieldElementExpression<T>) -> (r: Self) {
        BooleanExpression::Select(Box::new(array), Box::new(index))
    }
}

impl<T: Field> Select<T> for UExpression<T> {
    open spec fn selects_from(array: ArrayExpressionView) -> bool {
        array.ty is Uint
    }

    open spec fn select_view(
        array: ArrayExpressionView,
        index: FieldElementExpressionView,
    ) -> UExpressionView {
        UExpressionView {
            bitwidth: array.ty->Uint_0,
            inner: UExpressionInnerView::Select(Box::new(array), Box::new(index)),
        }
    }

    fn select(array: ArrayExpression<T>, index: FieldElementExpression<T>) -> (r: Self) {
        let bitwidth = match array.inner_type() {
            Type::Uint(bitwidth) => *bitwidth,
            _ => UBitwidth::B8,
        };
        UExpressionInner::Select(Box::new(array), Box::new(index)).annotate(bitwidth)
    }
}

impl<T: Field> Select<T> for ArrayExpression<T> {
    open spec fn selects_from(array: ArrayExpressionView) -> bool {
        array.ty is Array
    }

    open spec fn select_view(
        array: ArrayExpressionView,
        index: FieldElementExpressionView,
    ) -> ArrayExpressionView {
        ArrayExpressionView {
            size: array.ty->Array_1,
            ty: *array.ty->Array_0,
            inner: ArrayExpressionInnerView::Select(Box::new(array), Box::new(index)),
        }
    }

    fn select(array: ArrayExpression<T>, index: FieldElementExpression<T>) -> (r: Self) {
        let (ty, size) = match array.inner_type() {
            Type::Array(array_type) => ((*array_type.ty).clone(), array_type.size),
            _ => (Type::FieldElement, 0),
        };
        ArrayExpressionInner::Select(Box::new(array), Box::new(index)).annotate(ty, size)
    }
}

impl<T: Field> Select<T> for StructExpression<T> {
    open spec fn selects_from(array: ArrayExpressionView) -> bool {
        array.ty is Struct
    }

    open spec fn select_view(
        array: ArrayExpressionView,
        index: FieldElementExpressionView,
    ) -> StructExpressionView {
        StructExpressionView {
            ty: array.ty->Struct_0,
            inner: StructExpressionInnerView::Select(Box::new(array), Box::new(index)),
        }
    }

    fn select(array: ArrayExpression<T>, index: FieldElementExpression<T>) -> (r: Self) {
        match array.inner_type().clone() {
            Type::Struct(members) => StructExpressionInner::Select(
                Box::new(array),
                Box::new(index),
            ).annotate(members),
            _ => {
                proof {
                    assert(false);
                }
                StructExpressionInner::Select(Box::new(array), Box::new(index)).annotate(
                    StructType::new(String::new(), String::new(), Vec::new()),
                )
            },
        }
    }
}

impl<T: Field> Member<T> for FieldElementExpression<T> {
    open spec fn member_of(s: StructExpressionView, id: Seq<char>) -> bool {
        true
    }

    open spec fn member_view(s: StructExpressionView, id: Seq<char>) -> FieldElementExpressionView {
        FieldElementExpressionView::Member(Box::new(s), id)
    }

    fn member(s: StructExpression<T>, member_id: MemberId) -> (r: Self) {
        FieldElementExpression::Member(Box::new(s), member_id)
    }
}

impl<T: Field> Member<T> for BooleanExpression<T> {
    open spec fn member_of(s: StructExpressionView, id: Seq<char>) -> bool {
        true
    }

    open spec fn member_view(s: StructExpressionView, id: Seq<char>) -> BooleanExpressionView {
        BooleanExpressionView::Member(Box::new(s), id)
    }

    fn member(s: StructExpression<T>, member_id: MemberId) -> (r: Self) {
        BooleanExpression::Member(Box::new(s), member_id)
    }
}

impl<T: Field> Member<T> for UExpression<T> {
    open spec fn member_of(s: StructExpressionView, id: Seq<char>) -> bool {
        s.ty.has_member(id) && s.ty.member_type(id) is Uint
    }

    open spec fn member_view(s: StructExpressionView, id: Seq<char>) -> UExpressionView {
        UExpressionView {
            bitwidth: s.ty.member_type(id)->Uint_0,
            inner: UExpressionInnerView::Member(Box::new(s), id),
        }
    }

    fn member(s: StructExpression<T>, member_id: MemberId) -> (r: Self) {
        let bitwidth = match s.ty().find_member(member_id.as_str()) {
            Some(m) => match &*m.ty {
                Type::Uint(bitwidth) => *bitwidth,
                _ => UBitwidth::B8,
            },
            None => UBitwidth::B8,
        };
        UExpressionInner::Member(Box::new(s), member_id).annotate(bitwidth)
    }
}

impl<T: Field> Member<T> for ArrayExpression<T> {
    open spec fn member_of(s: StructExpressionView, id: Seq<char>) -> bool {
        s.ty.has_member(id) && s.ty.member_type(id) is Array
    }

    open spec fn member_view(s: StructExpressionView, id: Seq<char>) -> ArrayExpressionView {
        ArrayExpressionView {
            size: s.ty.member_type(id)->Array_1,
            ty: *s.ty.member_type(id)->Array_0,
            inner: ArrayExpressionInnerView::Member(Box::new(s), id),
        }
    }

    fn member(s: StructExpression<T>, member_id: MemberId) -> (r: Self) {
        let (ty, size) = match s.ty().find_member(member_id.as_str()) {
            Some(m) => match &*m.ty {
                Type::Array(array_type) => ((*array_type.ty).clone(), array_type.size),
                _ => (Type::FieldElement, 0),
            },
            None => (Type::FieldElement, 0),
        };
        ArrayExpressionInner::Member(Box::new(s), member_id).annotate(ty, size)
    }
}

impl<T: Field> Member<T> for StructExpression<T> {
    open spec fn member_of(s: StructExpressionView, id: Seq<char>) -> bool {
        s.ty.has_member(id) && s.ty.member_type(id) is Struct
    }

    open spec fn member_view(s: StructExpressionView, id: Seq<char>) -> StructExpressionView {
        StructExpressionView {
            ty: s.ty.member_type(id)->Struct_0,
            inner: StructExpressionInnerView::Member(Box::new(s), id),
        }
    }

    fn member(s: StructExpression<T>, member_id: MemberId) -> (r: Self) {
        let found = match s.ty().find_member(member_id.as_str()) {
            Some(m) => match &*m.ty {
                Type::Struct(members) => Some(members.clone()),
                _ => None,
            },
            None => None,
        };
        match found {
            Some(members) => StructExpressionInner::Member(Box::new(s), member_id).annotate(
                members,
            ),
            None => {
                proof {
                    assert(false);
                }
                StructExpressionInner::Member(Box::new(s), member_id).annotate(
                    StructType::new(String::new(), String::new(), Vec::new()),
                )
            },
        }
    }
}

} // verus!
