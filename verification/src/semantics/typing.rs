//! What an expression of the source is as a typed expression, as the
//! checker with its scope and its functions reads it.

use vstd::prelude::*;
use crate::absy::{
    Assignee, AssigneeNode, Expression, ExpressionNode, Identifier, RangeOrExpression,
    SpreadOrExpression,
};
use crate::field::Field;
use crate::natural::le_value;
use crate::parser::Position;
use crate::semantics::messages::error_at;
use crate::semantics::query::FunctionQueryView;
use crate::semantics::rules::{
    BinaryOperator, call_view, identifier_view, type_text, typed_binary, typed_if_else, typed_not,
};
use crate::semantics::scope::CheckerView;
use crate::semantics::{ErrorInnerView, TypesView};
use crate::text::dec_string;
use crate::typed_absy::display::expression_display;
use crate::typed_absy::expression::{
    ArrayExpressionInnerView, ArrayExpressionView, FieldElementExpressionView,
    StructExpressionInnerView, StructExpressionView, TypedExpressionView, UExpressionInnerView,
    UExpressionView, expression_types,
};
use crate::typed_absy::identifier::IdentifierView;
use crate::typed_absy::program::TypedAssigneeView;
use crate::typed_absy::typed::{member_view, select_view};
use crate::typed_absy::types::{
    StructMemberView, StructTypeView, TypeView, UBitwidth, same_type, type_display,
};
use crate::typed_absy::variable::VariableView;

verus! {

pub type Typing = Result<TypedExpressionView, ErrorInnerView>;

/// What a binary operator makes of its operands, if both can be typed; the
/// error of the first that cannot, otherwise.
pub open spec fn binary_typing(
    op: BinaryOperator,
    pos: (Position, Position),
    x: Typing,
    y: Typing,
) -> Typing {
    match x {
        Err(e) => Err(e),
        Ok(a) => match y {
            Err(e) => Err(e),
            Ok(b) => typed_binary(op, pos, a, b),
        },
    }
}

/// The message for a call of a function that is not there.
pub open spec fn function_not_found(name: Seq<char>, query: FunctionQueryView) -> Seq<char> {
    "Function definition for function "@ + name + " with signature "@ + query.display()
        + " not found."@
}

/// The query of a call outside a definition: the function returns one value
/// of a type that is not known.
pub open spec fn call_query(name: Seq<char>, arguments: Seq<TypedExpressionView>) -> FunctionQueryView {
    FunctionQueryView { id: name, inputs: expression_types(arguments), outputs: seq![None] }
}

/// The rule for a call outside a definition.
pub open spec fn typed_call(
    c: CheckerView,
    pos: (Position, Position),
    name: Seq<char>,
    arguments: Seq<TypedExpressionView>,
) -> Typing {
    let query = call_query(name, arguments);
    match query.find(c.functions) {
        Some(f) => Ok(call_view(f, arguments, f.signature.outputs[0])),
        None => Err(error_at(pos, function_not_found(name, query))),
    }
}

/// The number `n` as a constant of the field.
pub open spec fn number<T: Field>(n: nat) -> FieldElementExpressionView {
    FieldElementExpressionView::Number(n % T::modulus())
}

/// The elements of `array` from `from` up to `to`, each selected by its
/// index.
pub open spec fn slice_elements<T: Field>(array: ArrayExpressionView, from: nat, to: nat) -> Seq<
    TypedExpressionView,
> {
    Seq::new((to - from) as nat, |i: int| select_view(array, number::<T>((from + i) as nat)))
}

/// The message for a bound of a range that is no constant.
pub open spec fn bound_not_constant(which: Seq<char>, bound: TypedExpressionView) -> Seq<char> {
    "Expected the "@ + which + " bound of the range to be a constant field, found "@
        + expression_display(bound)
}

/// The message for a bound of a range outside the array.
pub open spec fn bound_out_of_array(which: Seq<char>, bound: nat, size: nat) -> Seq<char> {
    which + " range bound "@ + dec_string(bound) + " is out of array bounds [0, "@ + dec_string(
        size,
    ) + "]"@
}

/// The rule for a slice: both bounds are constants, and the lower bound is
/// at most the higher, which is at most the size of the array. The slice is
/// the inline array of the elements between the bounds.
pub open spec fn typed_slice<T: Field>(
    pos: (Position, Position),
    array: ArrayExpressionView,
    from: TypedExpressionView,
    to: TypedExpressionView,
) -> Typing {
    match from {
        TypedExpressionView::FieldElement(FieldElementExpressionView::Number(f)) => match to {
            TypedExpressionView::FieldElement(FieldElementExpressionView::Number(t)) => {
                if f > array.size {
                    Err(error_at(pos, bound_out_of_array("Lower"@, f, array.size)))
                } else if t > array.size {
                    Err(error_at(pos, bound_out_of_array("Higher"@, t, array.size)))
                } else if f > t {
                    Err(
                        error_at(
                            pos,
                            "Lower range bound "@ + dec_string(f)
                                + " is larger than higher range bound "@ + dec_string(t),
                        ),
                    )
                } else {
                    Ok(
                        TypedExpressionView::Array(
                            ArrayExpressionView {
                                size: (t - f) as nat,
                                ty: array.ty,
                                inner: ArrayExpressionInnerView::Value(
                                    slice_elements::<T>(array, f, t),
                                ),
                            },
                        ),
                    )
                }
            },
            _ => Err(error_at(pos, bound_not_constant("higher"@, to))),
        },
        _ => Err(error_at(pos, bound_not_constant("lower"@, from))),
    }
}

/// The rule for an element of an array: an array, and a field element as
/// index.
pub open spec fn typed_select(
    pos: (Position, Position),
    array: TypedExpressionView,
    index: TypedExpressionView,
) -> Typing {
    match (array, index) {
        (TypedExpressionView::Array(a), TypedExpressionView::FieldElement(i)) => Ok(
            select_view(a, i),
        ),
        _ => Err(
            error_at(
                pos,
                "Cannot access element "@ + expression_display(index) + " on expression of type "@
                    + type_text(array),
            ),
        ),
    }
}

/// The rule for a member of a struct: a struct that has the member.
pub open spec fn typed_member(
    pos: (Position, Position),
    s: TypedExpressionView,
    id: Seq<char>,
) -> Typing {
    match s {
        TypedExpressionView::Struct(e) => if e.ty.has_member(id) {
            Ok(member_view(e, id, e.ty.member_type(id)))
        } else {
            Err(error_at(pos, type_text(s) + " doesn't have member "@ + id))
        },
        _ => Err(
            error_at(
                pos,
                "Cannot access member "@ + id + " on expression of type "@ + type_text(s),
            ),
        ),
    }
}

/// What an array spreads out into: the elements of an inline array, or the
/// selection of each element of another array.
pub open spec fn typed_spread<T: Field>(pos: (Position, Position), x: TypedExpressionView) -> Result<
    Seq<TypedExpressionView>,
    ErrorInnerView,
> {
    match x {
        TypedExpressionView::Array(a) => match a.inner {
            ArrayExpressionInnerView::Value(v) => Ok(v),
            _ => Ok(slice_elements::<T>(a, 0, a.size)),
        },
        _ => Err(
            error_at(pos, "Expected spread operator to apply on array, found "@ + type_text(x)),
        ),
    }
}

/// The position of the first element whose type is not `ty`, or the number
/// of elements if all are of that type.
pub open spec fn first_of_other_type(elements: Seq<TypedExpressionView>, ty: TypeView) -> int
    decreases elements.len(),
{
    if elements.len() == 0 {
        0
    } else if !same_type(elements[0].get_type(), ty) {
        0
    } else {
        1 + first_of_other_type(elements.drop_first(), ty)
    }
}

/// The rule for an inline array: at least one element, and every element of
/// the type of the first.
pub open spec fn typed_inline_array(
    pos: (Position, Position),
    elements: Seq<TypedExpressionView>,
) -> Typing {
    if elements.len() == 0 {
        Err(error_at(pos, "Inline array cannot be empty"@))
    } else {
        let ty = elements[0].get_type();
        let at = first_of_other_type(elements, ty);
        if at < elements.len() {
            Err(
                error_at(
                    pos,
                    "Expected "@ + expression_display(elements[at]) + " to have type "@
                        + type_display(ty) + ", but type is "@ + type_text(elements[at]),
                ),
            )
        } else {
            Ok(
                TypedExpressionView::Array(
                    ArrayExpressionView {
                        size: elements.len(),
                        ty,
                        inner: ArrayExpressionInnerView::Value(elements),
                    },
                ),
            )
        }
    }
}

/// The position of the last member of an inline struct that is called `id`,
/// or -1 if there is none.
pub open spec fn last_named(members: Seq<(Identifier, ExpressionNode)>, id: Seq<char>) -> int
    decreases members.len(),
{
    if members.len() == 0 {
        -1
    } else if members.last().0@ == id {
        members.len() - 1
    } else {
        last_named(members.drop_last(), id)
    }
}

/// Whether one of the first `k` declared members is called `id`.
pub open spec fn named_before(members: Seq<StructMemberView>, k: int, id: Seq<char>) -> bool {
    exists|j: int| 0 <= j < k && j < members.len() && (#[trigger] members[j]).id == id
}

/// The message for a member of a struct type that an inline struct gives no
/// value.
pub open spec fn member_not_found(member: Seq<char>, ty: StructTypeView, value: Seq<char>) -> Seq<
    char,
> {
    "Member "@ + member + " of struct "@ + type_display(TypeView::Struct(ty))
        + " not found in value "@ + value
}

/// The message for a member of an inline struct whose value is of another
/// type than declared.
pub open spec fn member_of_other_type(
    member: StructMemberView,
    name: Seq<char>,
    value: TypedExpressionView,
) -> Seq<char> {
    "Member "@ + member.id + " of struct "@ + name + " has type "@ + type_display(member.ty)
        + ", found "@ + expression_display(value) + " of type "@ + type_text(value)
}

/// What an expression of the source is as a typed expression, or the first
/// thing wrong with it.
pub open spec fn checked_expression<T: Field>(
    c: CheckerView,
    e: &ExpressionNode,
    module: Seq<char>,
    types: TypesView,
) -> Typing
    decreases e, 0nat,
{
    let pos = (e.start, e.end);
    match e.value {
        Expression::BooleanConstant(b) => Ok(
            TypedExpressionView::Boolean(
                crate::typed_absy::expression::BooleanExpressionView::Value(b),
            ),
        ),
        Expression::Identifier(name) => match c.get_scope(name@) {
            Some(v) => Ok(identifier_view(name@, v.id.ty)),
            None => Err(error_at(pos, "Identifier \""@ + name@ + "\" is undefined"@)),
        },
        Expression::Add(a, b) => binary_typing(
            BinaryOperator::Add,
            pos,
            checked_expression::<T>(c, &*a, module, types),
            checked_expression::<T>(c, &*b, module, types),
        ),
        Expression::Sub(a, b) => binary_typing(
            BinaryOperator::Sub,
            pos,
            checked_expression::<T>(c, &*a, module, types),
            checked_expression::<T>(c, &*b, module, types),
        ),
        Expression::Mult(a, b) => binary_typing(
            BinaryOperator::Mult,
            pos,
            checked_expression::<T>(c, &*a, module, types),
            checked_expression::<T>(c, &*b, module, types),
        ),
        Expression::Div(a, b) => binary_typing(
            BinaryOperator::Div,
            pos,
            checked_expression::<T>(c, &*a, module, types),
            checked_expression::<T>(c, &*b, module, types),
        ),
        Expression::Rem(a, b) => binary_typing(
            BinaryOperator::Rem,
            pos,
            checked_expression::<T>(c, &*a, module, types),
            checked_expression::<T>(c, &*b, module, types),
        ),
        Expression::Pow(a, b) => binary_typing(
            BinaryOperator::Pow,
            pos,
            checked_expression::<T>(c, &*a, module, types),
            checked_expression::<T>(c, &*b, module, types),
        ),
        Expression::Lt(a, b) => binary_typing(
            BinaryOperator::Lt,
            pos,
            checked_expression::<T>(c, &*a, module, types),
            checked_expression::<T>(c, &*b, module, types),
        ),
        Expression::Le(a, b) => binary_typing(
            BinaryOperator::Le,
            pos,
            checked_expression::<T>(c, &*a, module, types),
            checked_expression::<T>(c, &*b, module, types),
        ),
        Expression::Eq(a, b) => binary_typing(
            BinaryOperator::Eq,
            pos,
            checked_expression::<T>(c, &*a, module, types),
            checked_expression::<T>(c, &*b, module, types),
        ),
        Expression::Ge(a, b) => binary_typing(
            BinaryOperator::Ge,
            pos,
            checked_expression::<T>(c, &*a, module, types),
            checked_expression::<T>(c, &*b, module, types),
        ),
        Expression::Gt(a, b) => binary_typing(
            BinaryOperator::Gt,
            pos,
            checked_expression::<T>(c, &*a, module, types),
            checked_expression::<T>(c, &*b, module, types),
        ),
        Expression::And(a, b) => binary_typing(
            BinaryOperator::And,
            pos,
            checked_expression::<T>(c, &*a, module, types),
            checked_expression::<T>(c, &*b, module, types),
        ),
        Expression::Or(a, b) => binary_typing(
            BinaryOperator::Or,
            pos,
            checked_expression::<T>(c, &*a, module, types),
            checked_expression::<T>(c, &*b, module, types),
        ),
        Expression::LeftShift(a, b) => binary_typing(
            BinaryOperator::LeftShift,
            pos,
            checked_expression::<T>(c, &*a, module, types),
            checked_expression::<T>(c, &*b, module, types),
        ),
        Expression::RightShift(a, b) => binary_typing(
            BinaryOperator::RightShift,
            pos,
            checked_expression::<T>(c, &*a, module, types),
            checked_expression::<T>(c, &*b, module, types),
        ),
        Expression::BitOr(a, b) => binary_typing(
            BinaryOperator::BitOr,
            pos,
            checked_expression::<T>(c, &*a, module, types),
            checked_expression::<T>(c, &*b, module, types),
        ),
        Expression::BitAnd(a, b) => binary_typing(
            BinaryOperator::BitAnd,
            pos,
            checked_expression::<T>(c, &*a, module, types),
            checked_expression::<T>(c, &*b, module, types),
        ),
        Expression::BitXor(a, b) => binary_typing(
            BinaryOperator::BitXor,
            pos,
            checked_expression::<T>(c, &*a, module, types),
            checked_expression::<T>(c, &*b, module, types),
        ),
        Expression::Not(a) => match checked_expression::<T>(c, &*a, module, types) {
            Err(e) => Err(e),
            Ok(x) => typed_not(pos, x),
        },
        Expression::IfElse(condition, consequence, alternative) => match checked_expression::<T>(
            c,
            &*condition,
            module,
            types,
        ) {
            Err(e) => Err(e),
            Ok(x) => match checked_expression::<T>(c, &*consequence, module, types) {
                Err(e) => Err(e),
                Ok(y) => match checked_expression::<T>(c, &*alternative, module, types) {
                    Err(e) => Err(e),
                    Ok(z) => typed_if_else(pos, x, y, z),
                },
            },
        },
        Expression::FieldConstant(n) => if le_value(n@) < T::modulus() {
            Ok(
                TypedExpressionView::FieldElement(
                    FieldElementExpressionView::Number(le_value(n@)),
                ),
            )
        } else {
            Err(
                error_at(
                    pos,
                    "Field constant not in the representable range ["@ + dec_string(0) + ", "@
                        + dec_string((T::modulus() - 1) as nat) + "]"@,
                ),
            )
        },
        Expression::U8Constant(n) => Ok(
            TypedExpressionView::Uint(
                UExpressionView {
                    bitwidth: UBitwidth::B8,
                    inner: UExpressionInnerView::Value(n as u128),
                },
            ),
        ),
        Expression::U16Constant(n) => Ok(
            TypedExpressionView::Uint(
                UExpressionView {
                    bitwidth: UBitwidth::B16,
                    inner: UExpressionInnerView::Value(n as u128),
                },
            ),
        ),
        Expression::U32Constant(n) => Ok(
            TypedExpressionView::Uint(
                UExpressionView {
                    bitwidth: UBitwidth::B32,
                    inner: UExpressionInnerView::Value(n as u128),
                },
            ),
        ),
        Expression::FunctionCall(name, arguments) => match checked_expressions::<T>(
            c,
            &arguments,
            arguments.len() as nat,
            module,
            types,
        ) {
            Err(e) => Err(e),
            Ok(args) => typed_call(c, pos, name@, args),
        },
        Expression::Select(array, index) => match checked_expression::<T>(
            c,
            &*array,
            module,
            types,
        ) {
            Err(e) => Err(e),
            Ok(a) => match *index {
                RangeOrExpression::Range(r) => match a {
                    TypedExpressionView::Array(x) => {
                        let from = match r.value.from {
                            Some(bound) => checked_expression::<T>(c, &bound, module, types),
                            None => Ok(TypedExpressionView::FieldElement(number::<T>(0))),
                        };
                        let to = match r.value.to {
                            Some(bound) => checked_expression::<T>(c, &bound, module, types),
                            None => Ok(TypedExpressionView::FieldElement(number::<T>(x.size))),
                        };
                        match from {
                            Err(e) => Err(e),
                            Ok(f) => match to {
                                Err(e) => Err(e),
                                Ok(t) => typed_slice::<T>(pos, x, f, t),
                            },
                        }
                    },
                    _ => Err(
                        error_at(
                            pos,
                            "Cannot access slice of expression "@ + expression_display(a)
                                + " of type "@ + type_text(a),
                        ),
                    ),
                },
                RangeOrExpression::Expression(i) => match checked_expression::<T>(
                    c,
                    &i,
                    module,
                    types,
                ) {
                    Err(e) => Err(e),
                    Ok(x) => typed_select(pos, a, x),
                },
            },
        },
        Expression::Member(s, id) => match checked_expression::<T>(c, &*s, module, types) {
            Err(e) => Err(e),
            Ok(x) => typed_member(pos, x, id@),
        },
        Expression::InlineArray(elements) => match checked_elements::<T>(
            c,
            &elements,
            elements.len() as nat,
            module,
            types,
        ) {
            Err(e) => Err(e),
            Ok(v) => typed_inline_array(pos, v),
        },
        Expression::InlineStruct(id, members) => match crate::semantics::expressions::inline_struct_type(
            pos,
            e.value.display(),
            id@,
            members.len() as nat,
            module,
            types,
        ) {
            Err(e) => Err(e),
            Ok(st) => match checked_members::<T>(
                c,
                pos,
                e.value.display(),
                st,
                id@,
                &members,
                st.members.len(),
                module,
                types,
            ) {
                Err(e) => Err(e),
                Ok(values) => Ok(
                    TypedExpressionView::Struct(
                        StructExpressionView {
                            ty: st,
                            inner: StructExpressionInnerView::Value(values),
                        },
                    ),
                ),
            },
        },
    }
}

/// The first `n` expressions of a list as typed expressions, or the first
/// thing wrong with one of them.
pub open spec fn checked_expressions<T: Field>(
    c: CheckerView,
    list: &Vec<ExpressionNode>,
    n: nat,
    module: Seq<char>,
    types: TypesView,
) -> Result<Seq<TypedExpressionView>, ErrorInnerView>
    decreases list, n,
{
    if n == 0 || n > list.len() {
        Ok(Seq::empty())
    } else {
        match checked_expressions::<T>(c, list, (n - 1) as nat, module, types) {
            Err(e) => Err(e),
            Ok(v) => match checked_expression::<T>(c, &list[n - 1], module, types) {
                Err(e) => Err(e),
                Ok(x) => Ok(v.push(x)),
            },
        }
    }
}

/// What an element of an inline array contributes to the array.
pub open spec fn checked_spread_or_expression<T: Field>(
    c: CheckerView,
    s: &SpreadOrExpression,
    module: Seq<char>,
    types: TypesView,
) -> Result<Seq<TypedExpressionView>, ErrorInnerView>
    decreases s, 0nat,
{
    match s {
        SpreadOrExpression::Spread(spread) => match checked_expression::<T>(
            c,
            &spread.value.expression,
            module,
            types,
        ) {
            Err(e) => Err(e),
            Ok(x) => typed_spread::<T>((spread.start, spread.end), x),
        },
        SpreadOrExpression::Expression(e) => match checked_expression::<T>(c, e, module, types) {
            Err(e) => Err(e),
            Ok(x) => Ok(seq![x]),
        },
    }
}

/// What the first `n` elements of an inline array contribute to the array.
pub open spec fn checked_elements<T: Field>(
    c: CheckerView,
    list: &Vec<SpreadOrExpression>,
    n: nat,
    module: Seq<char>,
    types: TypesView,
) -> Result<Seq<TypedExpressionView>, ErrorInnerView>
    decreases list, n,
{
    if n == 0 || n > list.len() {
        Ok(Seq::empty())
    } else {
        match checked_elements::<T>(c, list, (n - 1) as nat, module, types) {
            Err(e) => Err(e),
            Ok(v) => match checked_spread_or_expression::<T>(c, &list[n - 1], module, types) {
                Err(e) => Err(e),
                Ok(w) => Ok(v + w),
            },
        }
    }
}

/// The values of the first `k` declared members of a struct type, as an
/// inline struct gives them: for each member the last value under its
/// name, of the type of the member. A name that an earlier member has
/// counts as not given.
pub open spec fn checked_members<T: Field>(
    c: CheckerView,
    pos: (Position, Position),
    text: Seq<char>,
    st: StructTypeView,
    name: Seq<char>,
    members: &Vec<(Identifier, ExpressionNode)>,
    k: nat,
    module: Seq<char>,
    types: TypesView,
) -> Result<Seq<TypedExpressionView>, ErrorInnerView>
    decreases members, k,
{
    if k == 0 || k > st.members.len() {
        Ok(Seq::empty())
    } else {
        match checked_members::<T>(c, pos, text, st, name, members, (k - 1) as nat, module, types) {
            Err(e) => Err(e),
            Ok(v) => {
                let member = st.members[k - 1];
                let at = last_named(members@, member.id);
                if named_before(st.members, k - 1, member.id) || !(0 <= at < members.len()) {
                    Err(error_at(pos, member_not_found(member.id, st, text)))
                } else {
                    match checked_expression::<T>(c, &members[at].1, module, types) {
                        Err(e) => Err(e),
                        Ok(x) => if same_type(x.get_type(), member.ty) {
                            Ok(v.push(x))
                        } else {
                            Err(error_at(pos, member_of_other_type(member, name, x)))
                        },
                    }
                }
            },
        }
    }
}

/// Whether no index of the assignee is a range.
pub open spec fn without_slices(a: &AssigneeNode) -> bool
    decreases a,
{
    match a.value {
        Assignee::Identifier(_) => true,
        Assignee::Select(sub, index) => *index is Expression && without_slices(&*sub),
        Assignee::Member(sub, _) => without_slices(&*sub),
    }
}

/// What an assignee of the source is as a typed assignee, or the first
/// thing wrong with it.
pub open spec fn checked_assignee<T: Field>(
    c: CheckerView,
    a: &AssigneeNode,
    module: Seq<char>,
    types: TypesView,
) -> Result<TypedAssigneeView, ErrorInnerView>
    decreases a,
{
    let pos = (a.start, a.end);
    match a.value {
        Assignee::Identifier(name) => match c.get_scope(name@) {
            Some(v) => Ok(
                TypedAssigneeView::Identifier(
                    VariableView { id: IdentifierView::source(name@), ty: v.id.ty },
                ),
            ),
            None => Err(error_at(pos, "Variable `"@ + name@ + "` is undeclared"@)),
        },
        Assignee::Select(sub, index) => match checked_assignee::<T>(c, &*sub, module, types) {
            Err(e) => Err(e),
            Ok(x) => match x.get_type() {
                TypeView::Array(_, _) => match *index {
                    RangeOrExpression::Expression(i) => match checked_expression::<T>(
                        c,
                        &i,
                        module,
                        types,
                    ) {
                        Err(e) => Err(e),
                        Ok(TypedExpressionView::FieldElement(f)) => Ok(
                            TypedAssigneeView::Select(Box::new(x), Box::new(f)),
                        ),
                        Ok(other) => Err(
                            error_at(
                                pos,
                                "Expected array "@ + x.display()
                                    + " index to have type field, found "@ + type_text(other),
                            ),
                        ),
                    },
                    RangeOrExpression::Range(_) => arbitrary(),
                },
                ty => Err(
                    error_at(
                        pos,
                        "Cannot access element at index "@ + index.display() + " on "@
                            + x.display() + " of type "@ + type_display(ty),
                    ),
                ),
            },
        },
        Assignee::Member(sub, member) => match checked_assignee::<T>(c, &*sub, module, types) {
            Err(e) => Err(e),
            Ok(x) => match x.get_type() {
                TypeView::Struct(st) => if st.has_member(member@) {
                    Ok(TypedAssigneeView::Member(Box::new(x), member@))
                } else {
                    Err(
                        error_at(
                            pos,
                            type_display(x.get_type()) + " doesn't have member "@ + member@,
                        ),
                    )
                },
                ty => Err(
                    error_at(
                        pos,
                        "Cannot access field "@ + member@ + " on "@ + x.display()
                            + " as of type "@ + type_display(ty),
                    ),
                ),
            },
        },
    }
}

} // verus!
