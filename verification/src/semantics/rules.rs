//! The typing rules of expressions: what the parts of an expression, once
//! typed, make together, or what is wrong with them.

use vstd::prelude::*;
use crate::field::Field;
use crate::parser::Position;
use crate::semantics::messages::{error_at, make_error, result_view};
use crate::semantics::{ErrorInner, ErrorInnerView};
use crate::typed_absy::display::expression_display;
use crate::typed_absy::expression::{
    ArrayExpression, ArrayExpressionInner, ArrayExpressionInnerView, ArrayExpressionView,
    BooleanExpression, BooleanExpressionView, BooleanOp, FieldComparison, FieldElementExpression,
    FieldElementExpressionView, FieldOp, Shift, StructExpression, StructExpressionInner,
    StructExpressionInnerView, StructExpressionView, TypedExpression, TypedExpressionView,
    UExpression, UExpressionInner, UExpressionInnerView, UExpressionView, UintOp,
    expressions_model,
};
use crate::typed_absy::identifier::{Identifier, IdentifierView};
use crate::typed_absy::typed::{IfElse, Select, Typed, member_view, select_view};
use crate::typed_absy::types::{
    FunctionKey, FunctionKeyView, Type, TypeView, same_type, type_display,
};

verus! {

/// The operators that take two operands.
#[derive(Clone, Copy, PartialEq, Eq, Structural, Debug)]
pub enum BinaryOperator {
    Add,
    Sub,
    Mult,
    Div,
    Rem,
    Pow,
    Lt,
    Le,
    Eq,
    Ge,
    Gt,
    And,
    Or,
    LeftShift,
    RightShift,
    BitOr,
    BitAnd,
    BitXor,
}

/// How the type of an expression is written.
pub open spec fn type_text(e: TypedExpressionView) -> Seq<char> {
    type_display(e.get_type())
}

/// The message for an operator that does not apply to its operands.
pub open spec fn cannot_apply(symbol: Seq<char>, x: TypedExpressionView, y: TypedExpressionView) -> Seq<
    char,
> {
    "Cannot apply `"@ + symbol + "` to "@ + type_text(x) + ", "@ + type_text(y)
}

/// The message for an operator of field elements on something else.
pub open spec fn only_field_elements(x: TypedExpressionView, y: TypedExpressionView) -> Seq<char> {
    "Expected only field elements, found "@ + type_text(x) + ", "@ + type_text(y)
}

/// The message for a comparison of what cannot be compared.
pub open spec fn cannot_compare(x: TypedExpressionView, y: TypedExpressionView) -> Seq<char> {
    "Cannot compare "@ + expression_display(x) + " of type "@ + type_text(x) + " to "@
        + expression_display(y) + " of type "@ + type_text(y)
}

/// A message that names the types of two operands.
pub open spec fn about_types(
    head: Seq<char>,
    x: TypedExpressionView,
    between: Seq<char>,
    y: TypedExpressionView,
) -> Seq<char> {
    head + type_text(x) + between + type_text(y)
}

/// The type of an expression as text.
pub fn type_to_string<T: Field>(e: &TypedExpression<T>) -> (r: String)
    ensures
        r@ == type_text(e@),
{
    e.get_type().to_string()
}

fn about_types_error<T: Field>(
    pos: (Position, Position),
    head: &str,
    x: &TypedExpression<T>,
    between: &str,
    y: &TypedExpression<T>,
) -> (r: ErrorInner)
    ensures
        r@ == error_at(pos, about_types(head@, x@, between@, y@)),
{
    let mut s = String::from_str(head);
    s.append(type_to_string(x).as_str());
    s.append(between);
    s.append(type_to_string(y).as_str());
    make_error(pos, s)
}

fn cannot_apply_error<T: Field>(
    pos: (Position, Position),
    symbol: &str,
    x: &TypedExpression<T>,
    y: &TypedExpression<T>,
) -> (r: ErrorInner)
    ensures
        r@ == error_at(pos, cannot_apply(symbol@, x@, y@)),
{
    let mut s = String::from_str("Cannot apply `");
    s.append(symbol);
    s.append("` to ");
    s.append(type_to_string(x).as_str());
    s.append(", ");
    s.append(type_to_string(y).as_str());
    make_error(pos, s)
}

fn only_field_elements_error<T: Field>(
    pos: (Position, Position),
    x: &TypedExpression<T>,
    y: &TypedExpression<T>,
) -> (r: ErrorInner)
    ensures
        r@ == error_at(pos, only_field_elements(x@, y@)),
{
    let mut s = String::from_str("Expected only field elements, found ");
    s.append(type_to_string(x).as_str());
    s.append(", ");
    s.append(type_to_string(y).as_str());
    make_error(pos, s)
}

fn cannot_compare_error<T: Field>(
    pos: (Position, Position),
    x: &TypedExpression<T>,
    y: &TypedExpression<T>,
) -> (r: ErrorInner)
    ensures
        r@ == error_at(pos, cannot_compare(x@, y@)),
{
    let mut s = String::from_str("Cannot compare ");
    s.append(x.to_string().as_str());
    s.append(" of type ");
    s.append(type_to_string(x).as_str());
    s.append(" to ");
    s.append(y.to_string().as_str());
    s.append(" of type ");
    s.append(type_to_string(y).as_str());
    make_error(pos, s)
}

/// A binary operation on field elements.
pub fn field_binary<T: Field>(
    op: FieldOp,
    a: FieldElementExpression<T>,
    b: FieldElementExpression<T>,
) -> (r: FieldElementExpression<T>)
    ensures
        r@ == FieldElementExpressionView::Binary(op, Box::new(a@), Box::new(b@)),
{
    match op {
        FieldOp::Add => FieldElementExpression::Add(Box::new(a), Box::new(b)),
        FieldOp::Sub => FieldElementExpression::Sub(Box::new(a), Box::new(b)),
        FieldOp::Mult => FieldElementExpression::Mult(Box::new(a), Box::new(b)),
        FieldOp::Div => FieldElementExpression::Div(Box::new(a), Box::new(b)),
        FieldOp::Pow => FieldElementExpression::Pow(Box::new(a), Box::new(b)),
    }
}

/// A binary operation on unsigned integers of one width.
pub fn uint_binary<T: Field>(op: UintOp, a: UExpression<T>, b: UExpression<T>) -> (r: UExpression<
    T,
>)
    requires
        a.bitwidth == b.bitwidth,
    ensures
        r@ == UExpressionView::binary(op, a@, b@),
{
    match op {
        UintOp::Add => a.add(b),
        UintOp::Sub => a.sub(b),
        UintOp::Mult => a.mult(b),
        UintOp::Div => a.div(b),
        UintOp::Rem => a.rem(b),
        UintOp::Xor => a.xor(b),
        UintOp::And => a.and(b),
        UintOp::Or => a.or(b),
    }
}

/// A comparison of field elements.
pub fn field_comparison<T: Field>(
    op: FieldComparison,
    a: FieldElementExpression<T>,
    b: FieldElementExpression<T>,
) -> (r: BooleanExpression<T>)
    ensures
        r@ == BooleanExpressionView::Compare(op, Box::new(a@), Box::new(b@)),
{
    match op {
        FieldComparison::Lt => BooleanExpression::Lt(Box::new(a), Box::new(b)),
        FieldComparison::Le => BooleanExpression::Le(Box::new(a), Box::new(b)),
        FieldComparison::Eq => BooleanExpression::FieldEq(Box::new(a), Box::new(b)),
        FieldComparison::Ge => BooleanExpression::Ge(Box::new(a), Box::new(b)),
        FieldComparison::Gt => BooleanExpression::Gt(Box::new(a), Box::new(b)),
    }
}

/// The rule for `+ - * /`: two field elements, or two unsigned integers of
/// one width. `mismatch` is the operator named when the widths differ,
/// `other` the one named for other operands; where there is none, the
/// message asks for field elements.
pub open spec fn typed_arithmetic(
    field_op: FieldOp,
    uint_op: UintOp,
    mismatch: Seq<char>,
    other: Option<Seq<char>>,
    pos: (Position, Position),
    x: TypedExpressionView,
    y: TypedExpressionView,
) -> Result<TypedExpressionView, ErrorInnerView> {
    match (x, y) {
        (TypedExpressionView::FieldElement(a), TypedExpressionView::FieldElement(b)) => Ok(
            TypedExpressionView::FieldElement(
                FieldElementExpressionView::Binary(field_op, Box::new(a), Box::new(b)),
            ),
        ),
        (TypedExpressionView::Uint(a), TypedExpressionView::Uint(b)) => if a.bitwidth
            == b.bitwidth {
            Ok(TypedExpressionView::Uint(UExpressionView::binary(uint_op, a, b)))
        } else {
            Err(error_at(pos, cannot_apply(mismatch, x, y)))
        },
        _ => Err(
            error_at(
                pos,
                match other {
                    Some(symbol) => cannot_apply(symbol, x, y),
                    None => only_field_elements(x, y),
                },
            ),
        ),
    }
}

fn type_arithmetic<T: Field>(
    field_op: FieldOp,
    uint_op: UintOp,
    mismatch: &str,
    other: Option<&str>,
    pos: (Position, Position),
    x: TypedExpression<T>,
    y: TypedExpression<T>,
) -> (r: Result<TypedExpression<T>, ErrorInner>)
    ensures
        result_view(r) == typed_arithmetic(
            field_op,
            uint_op,
            mismatch@,
            match other {
                Some(s) => Some(s@),
                None => None,
            },
            pos,
            x@,
            y@,
        ),
{
    match (x, y) {
        (TypedExpression::FieldElement(a), TypedExpression::FieldElement(b)) => Ok(
            TypedExpression::FieldElement(field_binary(field_op, a, b)),
        ),
        (TypedExpression::Uint(a), TypedExpression::Uint(b)) => {
            if a.bitwidth == b.bitwidth {
                Ok(TypedExpression::Uint(uint_binary(uint_op, a, b)))
            } else {
                Err(
                    cannot_apply_error(
                        pos,
                        mismatch,
                        &TypedExpression::Uint(a),
                        &TypedExpression::Uint(b),
                    ),
                )
            }
        },
        (x, y) => match other {
            Some(symbol) => Err(cannot_apply_error(pos, symbol, &x, &y)),
            None => Err(only_field_elements_error(pos, &x, &y)),
        },
    }
}

/// The rule for `% | & ^`: two unsigned integers of one width.
pub open spec fn typed_uint_only(
    uint_op: UintOp,
    symbol: Seq<char>,
    pos: (Position, Position),
    x: TypedExpressionView,
    y: TypedExpressionView,
) -> Result<TypedExpressionView, ErrorInnerView> {
    match (x, y) {
        (TypedExpressionView::Uint(a), TypedExpressionView::Uint(b)) => if a.bitwidth
            == b.bitwidth {
            Ok(TypedExpressionView::Uint(UExpressionView::binary(uint_op, a, b)))
        } else {
            Err(error_at(pos, cannot_apply(symbol, x, y)))
        },
        _ => Err(error_at(pos, cannot_apply(symbol, x, y))),
    }
}

fn type_uint_only<T: Field>(
    uint_op: UintOp,
    symbol: &str,
    pos: (Position, Position),
    x: TypedExpression<T>,
    y: TypedExpression<T>,
) -> (r: Result<TypedExpression<T>, ErrorInner>)
    ensures
        result_view(r) == typed_uint_only(uint_op, symbol@, pos, x@, y@),
{
    match (x, y) {
        (TypedExpression::Uint(a), TypedExpression::Uint(b)) => {
            if a.bitwidth == b.bitwidth {
                Ok(TypedExpression::Uint(uint_binary(uint_op, a, b)))
            } else {
                Err(
                    cannot_apply_error(
                        pos,
                        symbol,
                        &TypedExpression::Uint(a),
                        &TypedExpression::Uint(b),
                    ),
                )
            }
        },
        (x, y) => Err(cannot_apply_error(pos, symbol, &x, &y)),
    }
}

/// The rule for `**`: two field elements.
pub open spec fn typed_power(
    pos: (Position, Position),
    x: TypedExpressionView,
    y: TypedExpressionView,
) -> Result<TypedExpressionView, ErrorInnerView> {
    match (x, y) {
        (TypedExpressionView::FieldElement(a), TypedExpressionView::FieldElement(b)) => Ok(
            TypedExpressionView::FieldElement(
                FieldElementExpressionView::Binary(FieldOp::Pow, Box::new(a), Box::new(b)),
            ),
        ),
        _ => Err(error_at(pos, only_field_elements(x, y))),
    }
}

/// The rule for `< <= >= >`: two field elements.
pub open spec fn typed_comparison(
    op: FieldComparison,
    pos: (Position, Position),
    x: TypedExpressionView,
    y: TypedExpressionView,
) -> Result<TypedExpressionView, ErrorInnerView> {
    match (x, y) {
        (TypedExpressionView::FieldElement(a), TypedExpressionView::FieldElement(b)) => Ok(
            TypedExpressionView::Boolean(
                BooleanExpressionView::Compare(op, Box::new(a), Box::new(b)),
            ),
        ),
        _ => Err(error_at(pos, cannot_compare(x, y))),
    }
}

/// The rule for `==`: two expressions of one kind; of arrays, structs and
/// unsigned integers, two expressions of equal types.
pub open spec fn typed_equality(
    pos: (Position, Position),
    x: TypedExpressionView,
    y: TypedExpressionView,
) -> Result<TypedExpressionView, ErrorInnerView> {
    match (x, y) {
        (TypedExpressionView::FieldElement(a), TypedExpressionView::FieldElement(b)) => Ok(
            TypedExpressionView::Boolean(
                BooleanExpressionView::Compare(FieldComparison::Eq, Box::new(a), Box::new(b)),
            ),
        ),
        (TypedExpressionView::Boolean(a), TypedExpressionView::Boolean(b)) => Ok(
            TypedExpressionView::Boolean(
                BooleanExpressionView::Binary(BooleanOp::Eq, Box::new(a), Box::new(b)),
            ),
        ),
        (TypedExpressionView::Array(a), TypedExpressionView::Array(b)) => if same_type(
            x.get_type(),
            y.get_type(),
        ) {
            Ok(
                TypedExpressionView::Boolean(
                    BooleanExpressionView::ArrayEq(Box::new(a), Box::new(b)),
                ),
            )
        } else {
            Err(error_at(pos, cannot_compare(x, y)))
        },
        (TypedExpressionView::Struct(a), TypedExpressionView::Struct(b)) => if same_type(
            x.get_type(),
            y.get_type(),
        ) {
            Ok(
                TypedExpressionView::Boolean(
                    BooleanExpressionView::StructEq(Box::new(a), Box::new(b)),
                ),
            )
        } else {
            Err(error_at(pos, cannot_compare(x, y)))
        },
        (TypedExpressionView::Uint(a), TypedExpressionView::Uint(b)) => if a.bitwidth
            == b.bitwidth {
            Ok(TypedExpressionView::Boolean(BooleanExpressionView::UintEq(Box::new(a), Box::new(b))))
        } else {
            Err(error_at(pos, cannot_compare(x, y)))
        },
        _ => Err(error_at(pos, cannot_compare(x, y))),
    }
}

/// The rule for `&&` and `||`: two booleans. `head` and `between` are the
/// words of the message for other operands.
pub open spec fn typed_boolean(
    op: BooleanOp,
    head: Seq<char>,
    between: Seq<char>,
    pos: (Position, Position),
    x: TypedExpressionView,
    y: TypedExpressionView,
) -> Result<TypedExpressionView, ErrorInnerView> {
    match (x, y) {
        (TypedExpressionView::Boolean(a), TypedExpressionView::Boolean(b)) => Ok(
            TypedExpressionView::Boolean(
                BooleanExpressionView::Binary(op, Box::new(a), Box::new(b)),
            ),
        ),
        _ => Err(error_at(pos, about_types(head, x, between, y))),
    }
}

/// The rule for `<<` and `>>`: an unsigned integer, shifted by a field
/// element.
pub open spec fn typed_shift(
    op: Shift,
    pos: (Position, Position),
    x: TypedExpressionView,
    y: TypedExpressionView,
) -> Result<TypedExpressionView, ErrorInnerView> {
    match (x, y) {
        (TypedExpressionView::Uint(a), TypedExpressionView::FieldElement(b)) => Ok(
            TypedExpressionView::Uint(UExpressionView::shift(op, a, b)),
        ),
        _ => Err(
            error_at(
                pos,
                about_types(
                    match op {
                        Shift::Left => "cannot left-shift "@,
                        Shift::Right => "cannot right-shift "@,
                    },
                    x,
                    " by "@,
                    y,
                ),
            ),
        ),
    }
}

/// What a binary operator makes of two typed operands.
pub open spec fn typed_binary(
    op: BinaryOperator,
    pos: (Position, Position),
    x: TypedExpressionView,
    y: TypedExpressionView,
) -> Result<TypedExpressionView, ErrorInnerView> {
    match op {
        BinaryOperator::Add => typed_arithmetic(
            FieldOp::Add,
            UintOp::Add,
            "+"@,
            Some("+"@),
            pos,
            x,
            y,
        ),
        BinaryOperator::Sub => typed_arithmetic(
            FieldOp::Sub,
            UintOp::Sub,
            "+"@,
            None,
            pos,
            x,
            y,
        ),
        BinaryOperator::Mult => typed_arithmetic(
            FieldOp::Mult,
            UintOp::Mult,
            "*"@,
            Some("*"@),
            pos,
            x,
            y,
        ),
        BinaryOperator::Div => typed_arithmetic(
            FieldOp::Div,
            UintOp::Div,
            "/"@,
            Some("/"@),
            pos,
            x,
            y,
        ),
        BinaryOperator::Rem => typed_uint_only(UintOp::Rem, "%"@, pos, x, y),
        BinaryOperator::Pow => typed_power(pos, x, y),
        BinaryOperator::Lt => typed_comparison(FieldComparison::Lt, pos, x, y),
        BinaryOperator::Le => typed_comparison(FieldComparison::Le, pos, x, y),
        BinaryOperator::Eq => typed_equality(pos, x, y),
        BinaryOperator::Ge => typed_comparison(FieldComparison::Ge, pos, x, y),
        BinaryOperator::Gt => typed_comparison(FieldComparison::Gt, pos, x, y),
        BinaryOperator::And => typed_boolean(
            BooleanOp::And,
            "cannot apply boolean operators to "@,
            " and "@,
            pos,
            x,
            y,
        ),
        BinaryOperator::Or => typed_boolean(BooleanOp::Or, "cannot compare "@, " to "@, pos, x, y),
        BinaryOperator::LeftShift => typed_shift(Shift::Left, pos, x, y),
        BinaryOperator::RightShift => typed_shift(Shift::Right, pos, x, y),
        BinaryOperator::BitOr => typed_uint_only(UintOp::Or, "|"@, pos, x, y),
        BinaryOperator::BitAnd => typed_uint_only(UintOp::And, "&"@, pos, x, y),
        BinaryOperator::BitXor => typed_uint_only(UintOp::Xor, "^"@, pos, x, y),
    }
}

fn type_equality<T: Field>(pos: (Position, Position), x: TypedExpression<T>, y: TypedExpression<T>) -> (r:
    Result<TypedExpression<T>, ErrorInner>)
    ensures
        result_view(r) == typed_equality(pos, x@, y@),
{
    match (x, y) {
        (TypedExpression::FieldElement(a), TypedExpression::FieldElement(b)) => Ok(
            TypedExpression::Boolean(BooleanExpression::FieldEq(Box::new(a), Box::new(b))),
        ),
        (TypedExpression::Boolean(a), TypedExpression::Boolean(b)) => Ok(
            TypedExpression::Boolean(BooleanExpression::BoolEq(Box::new(a), Box::new(b))),
        ),
        (TypedExpression::Array(a), TypedExpression::Array(b)) => {
            if a.get_type().same(&b.get_type()) {
                Ok(TypedExpression::Boolean(BooleanExpression::ArrayEq(Box::new(a), Box::new(b))))
            } else {
                Err(
                    cannot_compare_error(
                        pos,
                        &TypedExpression::Array(a),
                        &TypedExpression::Array(b),
                    ),
                )
            }
        },
        (TypedExpression::Struct(a), TypedExpression::Struct(b)) => {
            if a.get_type().same(&b.get_type()) {
                Ok(TypedExpression::Boolean(BooleanExpression::StructEq(Box::new(a), Box::new(b))))
            } else {
                Err(
                    cannot_compare_error(
                        pos,
                        &TypedExpression::Struct(a),
                        &TypedExpression::Struct(b),
                    ),
                )
            }
        },
        (TypedExpression::Uint(a), TypedExpression::Uint(b)) => {
            if a.bitwidth == b.bitwidth {
                Ok(TypedExpression::Boolean(BooleanExpression::UintEq(Box::new(a), Box::new(b))))
            } else {
                Err(
                    cannot_compare_error(
                        pos,
                        &TypedExpression::Uint(a),
                        &TypedExpression::Uint(b),
                    ),
                )
            }
        },
        (x, y) => Err(cannot_compare_error(pos, &x, &y)),
    }
}

/// What a binary operator makes of two typed operands.
pub fn type_binary<T: Field>(
    op: BinaryOperator,
    pos: (Position, Position),
    x: TypedExpression<T>,
    y: TypedExpression<T>,
) -> (r: Result<TypedExpression<T>, ErrorInner>)
    ensures
        result_view(r) == typed_binary(op, pos, x@, y@),
{
    match op {
        BinaryOperator::Add => type_arithmetic(
            FieldOp::Add,
            UintOp::Add,
            "+",
            Some("+"),
            pos,
            x,
            y,
        ),
        BinaryOperator::Sub => type_arithmetic(FieldOp::Sub, UintOp::Sub, "+", None, pos, x, y),
        BinaryOperator::Mult => type_arithmetic(
            FieldOp::Mult,
            UintOp::Mult,
            "*",
            Some("*"),
            pos,
            x,
            y,
        ),
        BinaryOperator::Div => type_arithmetic(
            FieldOp::Div,
            UintOp::Div,
            "/",
            Some("/"),
            pos,
            x,
            y,
        ),
        BinaryOperator::Rem => type_uint_only(UintOp::Rem, "%", pos, x, y),
        BinaryOperator::Pow => match (x, y) {
            (TypedExpression::FieldElement(a), TypedExpression::FieldElement(b)) => Ok(
                TypedExpression::FieldElement(field_binary(FieldOp::Pow, a, b)),
            ),
            (x, y) => Err(only_field_elements_error(pos, &x, &y)),
        },
        BinaryOperator::Lt | BinaryOperator::Le | BinaryOperator::Ge | BinaryOperator::Gt => {
            let comparison = match op {
                BinaryOperator::Lt => FieldComparison::Lt,
                BinaryOperator::Le => FieldComparison::Le,
                BinaryOperator::Ge => FieldComparison::Ge,
                _ => FieldComparison::Gt,
            };
            match (x, y) {
                (TypedExpression::FieldElement(a), TypedExpression::FieldElement(b)) => Ok(
                    TypedExpression::Boolean(field_comparison(comparison, a, b)),
                ),
                (x, y) => Err(cannot_compare_error(pos, &x, &y)),
            }
        },
        BinaryOperator::Eq => type_equality(pos, x, y),
        BinaryOperator::And => match (x, y) {
            (TypedExpression::Boolean(a), TypedExpression::Boolean(b)) => Ok(
                TypedExpression::Boolean(BooleanExpression::And(Box::new(a), Box::new(b))),
            ),
            (x, y) => Err(
                about_types_error(pos, "cannot apply boolean operators to ", &x, " and ", &y),
            ),
        },
        BinaryOperator::Or => match (x, y) {
            (TypedExpression::Boolean(a), TypedExpression::Boolean(b)) => Ok(
                TypedExpression::Boolean(BooleanExpression::Or(Box::new(a), Box::new(b))),
            ),
            (x, y) => Err(about_types_error(pos, "cannot compare ", &x, " to ", &y)),
        },
        BinaryOperator::LeftShift => match (x, y) {
            (TypedExpression::Uint(a), TypedExpression::FieldElement(b)) => Ok(
                TypedExpression::Uint(a.left_shift(b)),
            ),
            (x, y) => Err(about_types_error(pos, "cannot left-shift ", &x, " by ", &y)),
        },
        BinaryOperator::RightShift => match (x, y) {
            (TypedExpression::Uint(a), TypedExpression::FieldElement(b)) => Ok(
                TypedExpression::Uint(a.right_shift(b)),
            ),
            (x, y) => Err(about_types_error(pos, "cannot right-shift ", &x, " by ", &y)),
        },
        BinaryOperator::BitOr => type_uint_only(UintOp::Or, "|", pos, x, y),
        BinaryOperator::BitAnd => type_uint_only(UintOp::And, "&", pos, x, y),
        BinaryOperator::BitXor => type_uint_only(UintOp::Xor, "^", pos, x, y),
    }
}

/// The rule for `!`: a boolean, or an unsigned integer, of which it is the
/// bitwise complement.
pub open spec fn typed_not(pos: (Position, Position), x: TypedExpressionView) -> Result<
    TypedExpressionView,
    ErrorInnerView,
> {
    match x {
        TypedExpressionView::Boolean(e) => Ok(
            TypedExpressionView::Boolean(BooleanExpressionView::Not(Box::new(e))),
        ),
        TypedExpressionView::Uint(e) => Ok(TypedExpressionView::Uint(UExpressionView::not(e))),
        _ => Err(error_at(pos, "cannot negate "@ + type_text(x))),
    }
}

pub fn type_not<T: Field>(pos: (Position, Position), x: TypedExpression<T>) -> (r: Result<
    TypedExpression<T>,
    ErrorInner,
>)
    ensures
        result_view(r) == typed_not(pos, x@),
{
    match x {
        TypedExpression::Boolean(e) => Ok(
            TypedExpression::Boolean(BooleanExpression::Not(Box::new(e))),
        ),
        TypedExpression::Uint(e) => Ok(TypedExpression::Uint(e.not())),
        e => {
            let mut s = String::from_str("cannot negate ");
            s.append(type_to_string(&e).as_str());
            Err(make_error(pos, s))
        },
    }
}

/// The conditional of two expressions of one kind.
pub open spec fn if_else_view(
    c: BooleanExpressionView,
    a: TypedExpressionView,
    b: TypedExpressionView,
) -> TypedExpressionView {
    match (a, b) {
        (TypedExpressionView::FieldElement(x), TypedExpressionView::FieldElement(y)) => {
            TypedExpressionView::FieldElement(
                FieldElementExpressionView::IfElse(Box::new(c), Box::new(x), Box::new(y)),
            )
        },
        (TypedExpressionView::Boolean(x), TypedExpressionView::Boolean(y)) => {
            TypedExpressionView::Boolean(
                BooleanExpressionView::IfElse(Box::new(c), Box::new(x), Box::new(y)),
            )
        },
        (TypedExpressionView::Array(x), TypedExpressionView::Array(y)) => {
            TypedExpressionView::Array(
                ArrayExpressionView {
                    size: x.size,
                    ty: x.ty,
                    inner: ArrayExpressionInnerView::IfElse(Box::new(c), Box::new(x), Box::new(y)),
                },
            )
        },
        (TypedExpressionView::Struct(x), TypedExpressionView::Struct(y)) => {
            TypedExpressionView::Struct(
                StructExpressionView {
                    ty: x.ty,
                    inner: StructExpressionInnerView::IfElse(
                        Box::new(c),
                        Box::new(x),
                        Box::new(y),
                    ),
                },
            )
        },
        (TypedExpressionView::Uint(x), TypedExpressionView::Uint(y)) => TypedExpressionView::Uint(
            UExpressionView {
                bitwidth: x.bitwidth,
                inner: UExpressionInnerView::IfElse(Box::new(c), Box::new(x), Box::new(y)),
            },
        ),
        _ => a,
    }
}

/// The rule for the conditional: a boolean condition, and two branches of
/// equal types.
pub open spec fn typed_if_else(
    pos: (Position, Position),
    c: TypedExpressionView,
    a: TypedExpressionView,
    b: TypedExpressionView,
) -> Result<TypedExpressionView, ErrorInnerView> {
    match c {
        TypedExpressionView::Boolean(condition) => if same_type(a.get_type(), b.get_type()) {
            Ok(if_else_view(condition, a, b))
        } else {
            Err(
                error_at(
                    pos,
                    about_types(
                        "{consequence} and {alternative} in `if/else` expression should have the same type, found "@,
                        a,
                        ", "@,
                        b,
                    ),
                ),
            )
        },
        _ => Err(
            error_at(pos, "{condition} after `if` should be a boolean, found "@ + type_text(c)),
        ),
    }
}

pub fn type_if_else<T: Field>(
    pos: (Position, Position),
    c: TypedExpression<T>,
    a: TypedExpression<T>,
    b: TypedExpression<T>,
) -> (r: Result<TypedExpression<T>, ErrorInner>)
    ensures
        result_view(r) == typed_if_else(pos, c@, a@, b@),
{
    match c {
        TypedExpression::Boolean(condition) => {
            if a.get_type().same(&b.get_type()) {
                match (a, b) {
                    (TypedExpression::FieldElement(x), TypedExpression::FieldElement(y)) => Ok(
                        TypedExpression::FieldElement(
                            FieldElementExpression::if_else(condition, x, y),
                        ),
                    ),
                    (TypedExpression::Boolean(x), TypedExpression::Boolean(y)) => Ok(
                        TypedExpression::Boolean(BooleanExpression::if_else(condition, x, y)),
                    ),
                    (TypedExpression::Array(x), TypedExpression::Array(y)) => Ok(
                        TypedExpression::Array(ArrayExpression::if_else(condition, x, y)),
                    ),
                    (TypedExpression::Struct(x), TypedExpression::Struct(y)) => Ok(
                        TypedExpression::Struct(StructExpression::if_else(condition, x, y)),
                    ),
                    (TypedExpression::Uint(x), TypedExpression::Uint(y)) => Ok(
                        TypedExpression::Uint(UExpression::if_else(condition, x, y)),
                    ),
                    (a, _) => Ok(a),
                }
            } else {
                Err(
                    about_types_error(
                        pos,
                        "{consequence} and {alternative} in `if/else` expression should have the same type, found ",
                        &a,
                        ", ",
                        &b,
                    ),
                )
            }
        },
        c => {
            let mut s = String::from_str("{condition} after `if` should be a boolean, found ");
            s.append(type_to_string(&c).as_str());
            Err(make_error(pos, s))
        },
    }
}

/// The variable `name` of type `ty`, as an expression of that type.
pub open spec fn identifier_view(name: Seq<char>, ty: TypeView) -> TypedExpressionView {
    let id = IdentifierView::source(name);
    match ty {
        TypeView::Boolean => TypedExpressionView::Boolean(BooleanExpressionView::Identifier(id)),
        TypeView::Uint(w) => TypedExpressionView::Uint(
            UExpressionView { bitwidth: w, inner: UExpressionInnerView::Identifier(id) },
        ),
        TypeView::FieldElement => TypedExpressionView::FieldElement(
            FieldElementExpressionView::Identifier(id),
        ),
        TypeView::Array(ty, size) => TypedExpressionView::Array(
            ArrayExpressionView { size, ty: *ty, inner: ArrayExpressionInnerView::Identifier(id) },
        ),
        TypeView::Struct(s) => TypedExpressionView::Struct(
            StructExpressionView { ty: s, inner: StructExpressionInnerView::Identifier(id) },
        ),
    }
}

pub fn make_identifier<T: Field>(name: &str, ty: Type) -> (r: TypedExpression<T>)
    ensures
        r@ == identifier_view(name@, ty@),
{
    let id = Identifier::from(name);
    match ty {
        Type::Boolean => TypedExpression::Boolean(BooleanExpression::Identifier(id)),
        Type::Uint(bitwidth) => TypedExpression::Uint(
            UExpressionInner::Identifier(id).annotate(bitwidth),
        ),
        Type::FieldElement => TypedExpression::FieldElement(
            FieldElementExpression::Identifier(id),
        ),
        Type::Array(array_type) => TypedExpression::Array(
            ArrayExpressionInner::Identifier(id).annotate(*array_type.ty, array_type.size),
        ),
        Type::Struct(members) => TypedExpression::Struct(
            StructExpressionInner::Identifier(id).annotate(members),
        ),
    }
}

/// The call of the function `key` with the given arguments, as an
/// expression of the type `ty` that the function returns.
pub open spec fn call_view(
    key: FunctionKeyView,
    arguments: Seq<TypedExpressionView>,
    ty: TypeView,
) -> TypedExpressionView {
    match ty {
        TypeView::FieldElement => TypedExpressionView::FieldElement(
            FieldElementExpressionView::FunctionCall(key, arguments),
        ),
        TypeView::Boolean => TypedExpressionView::Boolean(
            BooleanExpressionView::FunctionCall(key, arguments),
        ),
        TypeView::Uint(w) => TypedExpressionView::Uint(
            UExpressionView {
                bitwidth: w,
                inner: UExpressionInnerView::FunctionCall(key, arguments),
            },
        ),
        TypeView::Struct(s) => TypedExpressionView::Struct(
            StructExpressionView {
                ty: s,
                inner: StructExpressionInnerView::FunctionCall(key, arguments),
            },
        ),
        TypeView::Array(ty, size) => TypedExpressionView::Array(
            ArrayExpressionView {
                size,
                ty: *ty,
                inner: ArrayExpressionInnerView::FunctionCall(key, arguments),
            },
        ),
    }
}

pub fn make_call<T: Field>(key: FunctionKey, arguments: Vec<TypedExpression<T>>, ty: Type) -> (r:
    TypedExpression<T>)
    ensures
        r@ == call_view(key@, expressions_model(&arguments), ty@),
{
    match ty {
        Type::FieldElement => TypedExpression::FieldElement(
            FieldElementExpression::FunctionCall(key, arguments),
        ),
        Type::Boolean => TypedExpression::Boolean(
            BooleanExpression::FunctionCall(key, arguments),
        ),
        Type::Uint(bitwidth) => TypedExpression::Uint(
            UExpressionInner::FunctionCall(key, arguments).annotate(bitwidth),
        ),
        Type::Struct(members) => TypedExpression::Struct(
            StructExpressionInner::FunctionCall(key, arguments).annotate(members),
        ),
        Type::Array(array_type) => TypedExpression::Array(
            ArrayExpressionInner::FunctionCall(key, arguments).annotate(
                *array_type.ty,
                array_type.size,
            ),
        ),
    }
}

/// The element of `array` at `index`, as an expression of the element type.
pub fn make_select<T: Field>(array: ArrayExpression<T>, index: FieldElementExpression<T>) -> (r:
    TypedExpression<T>)
    ensures
        r@ == select_view(array@, index@),
{
    match array.inner_type() {
        Type::FieldElement => TypedExpression::FieldElement(
            FieldElementExpression::select(array, index),
        ),
        Type::Uint(_) => TypedExpression::Uint(UExpression::select(array, index)),
        Type::Boolean => TypedExpression::Boolean(BooleanExpression::select(array, index)),
        Type::Array(_) => TypedExpression::Array(ArrayExpression::select(array, index)),
        Type::Struct(_) => TypedExpression::Struct(StructExpression::select(array, index)),
    }
}

/// The member `id` of `s`, as an expression of the type `ty` of that member.
pub fn make_member<T: Field>(s: StructExpression<T>, id: String, ty: Type) -> (r: TypedExpression<
    T,
>)
    ensures
        r@ == member_view(s@, id@, ty@),
{
    match ty {
        Type::FieldElement => TypedExpression::FieldElement(
            FieldElementExpression::Member(Box::new(s), id),
        ),
        Type::Boolean => TypedExpression::Boolean(BooleanExpression::Member(Box::new(s), id)),
        Type::Uint(bitwidth) => TypedExpression::Uint(
            UExpressionInner::Member(Box::new(s), id).annotate(bitwidth),
        ),
        Type::Array(array_type) => TypedExpression::Array(
            ArrayExpressionInner::Member(Box::new(s), id).annotate(
                *array_type.ty,
                array_type.size,
            ),
        ),
        Type::Struct(members) => TypedExpression::Struct(
            StructExpressionInner::Member(Box::new(s), id).annotate(members),
        ),
    }
}

} // verus!
