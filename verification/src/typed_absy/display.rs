//! How typed expressions are written. Error messages quote expressions in
//! this form.

use vstd::prelude::*;
use crate::field::Field;
use crate::text::{bool_string, bool_to_string, dec_string, hex_string, join, push_joined, u128_to_hex};
use crate::typed_absy::expression::{
    ArrayExpression, ArrayExpressionInner, ArrayExpressionInnerView, ArrayExpressionView,
    BooleanExpression, BooleanExpressionView, BooleanOp, FieldComparison, FieldElementExpression,
    FieldElementExpressionView, FieldOp, Shift, StructExpression, StructExpressionInnerView,
    StructExpressionInner, StructExpressionView, TypedExpression, TypedExpressionView,
    UExpression, UExpressionInner, UExpressionInnerView, UExpressionView, UintOp,
    expressions_model,
};
use crate::typed_absy::types::StructMemberView;

verus! {

pub open spec fn field_op_symbol(op: FieldOp) -> Seq<char> {
    match op {
        FieldOp::Add => " + "@,
        FieldOp::Sub => " - "@,
        FieldOp::Mult => " * "@,
        FieldOp::Div => " / "@,
        FieldOp::Pow => "**"@,
    }
}

pub open spec fn comparison_symbol(op: FieldComparison) -> Seq<char> {
    match op {
        FieldComparison::Lt => " < "@,
        FieldComparison::Le => " <= "@,
        FieldComparison::Eq => " == "@,
        FieldComparison::Ge => " >= "@,
        FieldComparison::Gt => " > "@,
    }
}

pub open spec fn boolean_op_symbol(op: BooleanOp) -> Seq<char> {
    match op {
        BooleanOp::Eq => " == "@,
        BooleanOp::Or => " || "@,
        BooleanOp::And => " && "@,
    }
}

pub open spec fn uint_op_symbol(op: UintOp) -> Seq<char> {
    match op {
        UintOp::Add => " + "@,
        UintOp::Sub => " - "@,
        UintOp::Mult => " * "@,
        UintOp::Div => " / "@,
        UintOp::Rem => " % "@,
        UintOp::Xor => " ^ "@,
        UintOp::And => " & "@,
        UintOp::Or => " | "@,
    }
}

pub open spec fn shift_symbol(op: Shift) -> Seq<char> {
    match op {
        Shift::Left => " << "@,
        Shift::Right => " >> "@,
    }
}

/// Two operands with the operator between them, in parentheses.
pub open spec fn parenthesised(a: Seq<char>, symbol: Seq<char>, b: Seq<char>) -> Seq<char> {
    "("@ + a + symbol + b + ")"@
}

/// A conditional.
pub open spec fn if_else_display(c: Seq<char>, a: Seq<char>, b: Seq<char>) -> Seq<char> {
    "if "@ + c + " then "@ + a + " else "@ + b + " fi"@
}

/// A call: the name of the function and its arguments.
pub open spec fn call_display(name: Seq<char>, arguments: Seq<Seq<char>>) -> Seq<char> {
    name + "("@ + join(arguments, ", "@) + ")"@
}

/// An element of an array.
pub open spec fn select_display(array: Seq<char>, index: Seq<char>) -> Seq<char> {
    array + "["@ + index + "]"@
}

/// A member of a struct.
pub open spec fn member_display(s: Seq<char>, member: Seq<char>) -> Seq<char> {
    s + "."@ + member
}

/// How each expression of a list is written.
pub open spec fn expressions_display(list: Seq<TypedExpressionView>) -> Seq<Seq<char>>
    decreases list, 0nat,
{
    Seq::new(
        list.len(),
        |i: int|
            if 0 <= i < list.len() {
                expression_display(list[i])
            } else {
                Seq::empty()
            },
    )
}

/// How the values of a struct are written: each under the name of the member
/// at its place.
pub open spec fn struct_values_display(
    members: Seq<StructMemberView>,
    values: Seq<TypedExpressionView>,
) -> Seq<Seq<char>>
    decreases values, 0nat,
{
    Seq::new(
        if members.len() <= values.len() {
            members.len()
        } else {
            values.len()
        },
        |i: int|
            if 0 <= i < values.len() && i < members.len() {
                members[i].id + ": "@ + expression_display(values[i])
            } else {
                Seq::empty()
            },
    )
}

/// How a typed expression is written.
pub open spec fn expression_display(e: TypedExpressionView) -> Seq<char>
    decreases e, 1nat,
{
    match e {
        TypedExpressionView::Boolean(e) => boolean_display(e),
        TypedExpressionView::FieldElement(e) => field_display(e),
        TypedExpressionView::Uint(e) => uint_display(e),
        TypedExpressionView::Array(e) => array_display(e),
        TypedExpressionView::Struct(e) => struct_display(e),
    }
}

/// How a field expression is written.
pub open spec fn field_display(e: FieldElementExpressionView) -> Seq<char>
    decreases e, 1nat,
{
    match e {
        FieldElementExpressionView::Number(n) => dec_string(n),
        FieldElementExpressionView::Identifier(id) => id.display(),
        FieldElementExpressionView::Binary(op, a, b) => match op {
            FieldOp::Pow => field_display(*a) + "**"@ + field_display(*b),
            _ => parenthesised(field_display(*a), field_op_symbol(op), field_display(*b)),
        },
        FieldElementExpressionView::IfElse(c, a, b) => if_else_display(
            boolean_display(*c),
            field_display(*a),
            field_display(*b),
        ),
        FieldElementExpressionView::FunctionCall(k, args) => call_display(
            k.id,
            expressions_display(args),
        ),
        FieldElementExpressionView::Member(s, m) => member_display(struct_display(*s), m),
        FieldElementExpressionView::Select(a, i) => select_display(
            array_display(*a),
            field_display(*i),
        ),
    }
}

/// How a boolean expression is written.
pub open spec fn boolean_display(e: BooleanExpressionView) -> Seq<char>
    decreases e, 1nat,
{
    match e {
        BooleanExpressionView::Identifier(id) => id.display(),
        BooleanExpressionView::Value(b) => bool_string(b),
        BooleanExpressionView::Compare(op, a, b) => field_display(*a) + comparison_symbol(op)
            + field_display(*b),
        BooleanExpressionView::Binary(op, a, b) => boolean_display(*a) + boolean_op_symbol(op)
            + boolean_display(*b),
        BooleanExpressionView::ArrayEq(a, b) => array_display(*a) + " == "@ + array_display(*b),
        BooleanExpressionView::StructEq(a, b) => struct_display(*a) + " == "@ + struct_display(
            *b,
        ),
        BooleanExpressionView::UintEq(a, b) => uint_display(*a) + " == "@ + uint_display(*b),
        BooleanExpressionView::Not(a) => "!"@ + boolean_display(*a),
        BooleanExpressionView::IfElse(c, a, b) => if_else_display(
            boolean_display(*c),
            boolean_display(*a),
            boolean_display(*b),
        ),
        BooleanExpressionView::Member(s, m) => member_display(struct_display(*s), m),
        BooleanExpressionView::FunctionCall(k, args) => call_display(
            k.id,
            expressions_display(args),
        ),
        BooleanExpressionView::Select(a, i) => select_display(
            array_display(*a),
            field_display(*i),
        ),
    }
}

/// How an unsigned integer expression is written.
pub open spec fn uint_display(e: UExpressionView) -> Seq<char>
    decreases e, 1nat,
{
    match e.inner {
        UExpressionInnerView::Identifier(id) => id.display(),
        UExpressionInnerView::Value(v) => "0x"@ + hex_string(v as nat),
        UExpressionInnerView::Binary(op, a, b) => parenthesised(
            uint_display(*a),
            uint_op_symbol(op),
            uint_display(*b),
        ),
        UExpressionInnerView::Not(a) => "!"@ + uint_display(*a),
        UExpressionInnerView::Shift(op, a, by) => parenthesised(
            uint_display(*a),
            shift_symbol(op),
            field_display(*by),
        ),
        UExpressionInnerView::FunctionCall(k, args) => call_display(
            k.id,
            expressions_display(args),
        ),
        UExpressionInnerView::IfElse(c, a, b) => if_else_display(
            boolean_display(*c),
            uint_display(*a),
            uint_display(*b),
        ),
        UExpressionInnerView::Member(s, m) => member_display(struct_display(*s), m),
        UExpressionInnerView::Select(a, i) => select_display(
            array_display(*a),
            field_display(*i),
        ),
    }
}

/// How an array expression is written.
pub open spec fn array_display(e: ArrayExpressionView) -> Seq<char>
    decreases e, 1nat,
{
    match e.inner {
        ArrayExpressionInnerView::Identifier(id) => id.display(),
        ArrayExpressionInnerView::Value(v) => "["@ + join(expressions_display(v), ", "@) + "]"@,
        ArrayExpressionInnerView::FunctionCall(k, args) => call_display(
            k.id,
            expressions_display(args),
        ),
        ArrayExpressionInnerView::IfElse(c, a, b) => if_else_display(
            boolean_display(*c),
            array_display(*a),
            array_display(*b),
        ),
        ArrayExpressionInnerView::Member(s, m) => member_display(struct_display(*s), m),
        ArrayExpressionInnerView::Select(a, i) => select_display(
            array_display(*a),
            field_display(*i),
        ),
    }
}

/// How a struct expression is written.
pub open spec fn struct_display(e: StructExpressionView) -> Seq<char>
    decreases e, 1nat,
{
    match e.inner {
        StructExpressionInnerView::Identifier(id) => id.display(),
        StructExpressionInnerView::Value(v) => "{"@ + join(
            struct_values_display(e.ty.members, v),
            ", "@,
        ) + "}"@,
        StructExpressionInnerView::FunctionCall(k, args) => call_display(
            k.id,
            expressions_display(args),
        ),
        StructExpressionInnerView::IfElse(c, a, b) => if_else_display(
            boolean_display(*c),
            struct_display(*a),
            struct_display(*b),
        ),
        StructExpressionInnerView::Member(s, m) => member_display(struct_display(*s), m),
        StructExpressionInnerView::Select(a, i) => select_display(
            array_display(*a),
            field_display(*i),
        ),
    }
}

/// Two texts with a symbol between them and text around them.
pub fn infix_text(open: &str, a: &str, symbol: &str, b: &str, close: &str) -> (r: String)
    ensures
        r@ == open@ + a@ + symbol@ + b@ + close@,
{
    let mut s = String::from_str(open);
    s.append(a);
    s.append(symbol);
    s.append(b);
    s.append(close);
    s
}

pub fn if_else_text(c: &str, a: &str, b: &str) -> (r: String)
    ensures
        r@ == if_else_display(c@, a@, b@),
{
    let mut s = String::from_str("if ");
    s.append(c);
    s.append(" then ");
    s.append(a);
    s.append(" else ");
    s.append(b);
    s.append(" fi");
    s
}

pub fn select_text(array: &str, index: &str) -> (r: String)
    ensures
        r@ == select_display(array@, index@),
{
    let mut s = String::from_str(array);
    s.append("[");
    s.append(index);
    s.append("]");
    s
}

pub fn member_text(s: &str, member: &str) -> (r: String)
    ensures
        r@ == member_display(s@, member@),
{
    let mut out = String::from_str(s);
    out.append(".");
    out.append(member);
    out
}

/// The expressions of a list, separated by commas.
pub fn expressions_to_string<T: Field>(list: &Vec<TypedExpression<T>>) -> (r: String)
    ensures
        r@ == join(expressions_display(expressions_model(list)), ", "@),
    decreases list, 0nat,
{
    let mut out = String::new();
    let mut i: usize = 0;
    let ghost items = expressions_display(expressions_model(list));
    assert(items.take(0) =~= Seq::<Seq<char>>::empty());
    while i < list.len()
        invariant
            i <= list.len(),
            items == expressions_display(expressions_model(list)),
            out@ == join(items.take(i as int), ", "@),
        decreases list.len() - i,
    {
        let item = list[i].to_string();
        proof {
            assert(items.take(i + 1).drop_last() =~= items.take(i as int));
        }
        push_joined(&mut out, i, ", ", item.as_str(), Ghost(items.take(i + 1)));
        i += 1;
    }
    assert(items.take(i as int) =~= items);
    out
}

/// A call as text.
pub fn call_to_string<T: Field>(name: &str, arguments: &Vec<TypedExpression<T>>) -> (r: String)
    ensures
        r@ == call_display(name@, expressions_display(expressions_model(arguments))),
    decreases arguments, 1nat,
{
    let mut s = String::from_str(name);
    s.append("(");
    let list = expressions_to_string(arguments);
    s.append(list.as_str());
    s.append(")");
    s
}

impl<T: Field> TypedExpression<T> {
    /// The expression as text.
    pub fn to_string(&self) -> (r: String)
        ensures
            r@ == expression_display(self@),
        decreases self, 0nat,
    {
        match self {
            TypedExpression::Boolean(e) => e.to_string(),
            TypedExpression::FieldElement(e) => e.to_string(),
            TypedExpression::Uint(e) => e.to_string(),
            TypedExpression::Array(e) => e.to_string(),
            TypedExpression::Struct(e) => e.to_string(),
        }
    }
}

impl<T: Field> FieldElementExpression<T> {
    /// The expression as text.
    pub fn to_string(&self) -> (r: String)
        ensures
            r@ == field_display(self@),
        decreases self, 0nat,
    {
        match self {
            FieldElementExpression::Number(n) => n.to_dec_string(),
            FieldElementExpression::Identifier(id) => id.to_string(),
            FieldElementExpression::Add(a, b) => infix_text(
                "(",
                a.to_string().as_str(),
                " + ",
                b.to_string().as_str(),
                ")",
            ),
            FieldElementExpression::Sub(a, b) => infix_text(
                "(",
                a.to_string().as_str(),
                " - ",
                b.to_string().as_str(),
                ")",
            ),
            FieldElementExpression::Mult(a, b) => infix_text(
                "(",
                a.to_string().as_str(),
                " * ",
                b.to_string().as_str(),
                ")",
            ),
            FieldElementExpression::Div(a, b) => infix_text(
                "(",
                a.to_string().as_str(),
                " / ",
                b.to_string().as_str(),
                ")",
            ),
            FieldElementExpression::Pow(a, b) => {
                let mut s = a.to_string();
                s.append("**");
                s.append(b.to_string().as_str());
                s
            },
            FieldElementExpression::IfElse(c, a, b) => if_else_text(
                c.to_string().as_str(),
                a.to_string().as_str(),
                b.to_string().as_str(),
            ),
            FieldElementExpression::FunctionCall(k, args) => call_to_string(k.id.as_str(), args),
            FieldElementExpression::Member(s, m) => member_text(
                s.to_string().as_str(),
                m.as_str(),
            ),
            FieldElementExpression::Select(a, i) => select_text(
                a.to_string().as_str(),
                i.to_string().as_str(),
            ),
        }
    }
}

impl<T: Field> BooleanExpression<T> {
    /// The expression as text.
    pub fn to_string(&self) -> (r: String)
        ensures
            r@ == boolean_display(self@),
        decreases self, 0nat,
    {
        proof {
            reveal_strlit("");
        }
        let r = match self {
            BooleanExpression::Identifier(id) => id.to_string(),
            BooleanExpression::Value(b) => bool_to_string(*b),
            BooleanExpression::Lt(a, b) => infix_text(
                "",
                a.to_string().as_str(),
                " < ",
                b.to_string().as_str(),
                "",
            ),
            BooleanExpression::Le(a, b) => infix_text(
                "",
                a.to_string().as_str(),
                " <= ",
                b.to_string().as_str(),
                "",
            ),
            BooleanExpression::FieldEq(a, b) => infix_text(
                "",
                a.to_string().as_str(),
                " == ",
                b.to_string().as_str(),
                "",
            ),
            BooleanExpression::Ge(a, b) => infix_text(
                "",
                a.to_string().as_str(),
                " >= ",
                b.to_string().as_str(),
                "",
            ),
            BooleanExpression::Gt(a, b) => infix_text(
                "",
                a.to_string().as_str(),
                " > ",
                b.to_string().as_str(),
                "",
            ),
            BooleanExpression::BoolEq(a, b) => infix_text(
                "",
                a.to_string().as_str(),
                " == ",
                b.to_string().as_str(),
                "",
            ),
            BooleanExpression::Or(a, b) => infix_text(
                "",
                a.to_string().as_str(),
                " || ",
                b.to_string().as_str(),
                "",
            ),
            BooleanExpression::And(a, b) => infix_text(
                "",
                a.to_string().as_str(),
                " && ",
                b.to_string().as_str(),
                "",
            ),
            BooleanExpression::ArrayEq(a, b) => infix_text(
                "",
                a.to_string().as_str(),
                " == ",
                b.to_string().as_str(),
                "",
            ),
            BooleanExpression::StructEq(a, b) => infix_text(
                "",
                a.to_string().as_str(),
                " == ",
                b.to_string().as_str(),
                "",
            ),
            BooleanExpression::UintEq(a, b) => infix_text(
                "",
                a.to_string().as_str(),
                " == ",
                b.to_string().as_str(),
                "",
            ),
            BooleanExpression::Not(a) => {
                let mut s = String::from_str("!");
                s.append(a.to_string().as_str());
                s
            },
            BooleanExpression::IfElse(c, a, b) => if_else_text(
                c.to_string().as_str(),
                a.to_string().as_str(),
                b.to_string().as_str(),
            ),
            BooleanExpression::Member(s, m) => member_text(s.to_string().as_str(), m.as_str()),
            BooleanExpression::FunctionCall(k, args) => call_to_string(k.id.as_str(), args),
            BooleanExpression::Select(a, i) => select_text(
                a.to_string().as_str(),
                i.to_string().as_str(),
            ),
        };
        assert(r@ =~= boolean_display(self@));
        r
    }
}

impl<T: Field> UExpression<T> {
    /// The expression as text.
    pub fn to_string(&self) -> (r: String)
        ensures
            r@ == uint_display(self@),
        decreases self, 0nat,
    {
        match &self.inner {
            UExpressionInner::Identifier(id) => id.to_string(),
            UExpressionInner::Value(v) => {
                let mut s = String::from_str("0x");
                s.append(u128_to_hex(*v).as_str());
                s
            },
            UExpressionInner::Add(a, b) => infix_text(
                "(",
                a.to_string().as_str(),
                " + ",
                b.to_string().as_str(),
                ")",
            ),
            UExpressionInner::Sub(a, b) => infix_text(
                "(",
                a.to_string().as_str(),
                " - ",
                b.to_string().as_str(),
                ")",
            ),
            UExpressionInner::Mult(a, b) => infix_text(
                "(",
                a.to_string().as_str(),
                " * ",
                b.to_string().as_str(),
                ")",
            ),
            UExpressionInner::Div(a, b) => infix_text(
                "(",
                a.to_string().as_str(),
                " / ",
                b.to_string().as_str(),
                ")",
            ),
            UExpressionInner::Rem(a, b) => infix_text(
                "(",
                a.to_string().as_str(),
                " % ",
                b.to_string().as_str(),
                ")",
            ),
            UExpressionInner::Xor(a, b) => infix_text(
                "(",
                a.to_string().as_str(),
                " ^ ",
                b.to_string().as_str(),
                ")",
            ),
            UExpressionInner::And(a, b) => infix_text(
                "(",
                a.to_string().as_str(),
                " & ",
                b.to_string().as_str(),
                ")",
            ),
            UExpressionInner::Or(a, b) => infix_text(
                "(",
                a.to_string().as_str(),
                " | ",
                b.to_string().as_str(),
                ")",
            ),
            UExpressionInner::Not(a) => {
                let mut s = String::from_str("!");
                s.append(a.to_string().as_str());
                s
            },
            UExpressionInner::LeftShift(a, by) => infix_text(
                "(",
                a.to_string().as_str(),
                " << ",
                by.to_string().as_str(),
                ")",
            ),
            UExpressionInner::RightShift(a, by) => infix_text(
                "(",
                a.to_string().as_str(),
                " >> ",
                by.to_string().as_str(),
                ")",
            ),
            UExpressionInner::FunctionCall(k, args) => call_to_string(k.id.as_str(), args),
            UExpressionInner::IfElse(c, a, b) => if_else_text(
                c.to_string().as_str(),
                a.to_string().as_str(),
                b.to_string().as_str(),
            ),
            UExpressionInner::Member(s, m) => member_text(s.to_string().as_str(), m.as_str()),
            UExpressionInner::Select(a, i) => select_text(
                a.to_string().as_str(),
                i.to_string().as_str(),
            ),
        }
    }
}

impl<T: Field> ArrayExpression<T> {
    /// The expression as text.
    pub fn to_string(&self) -> (r: String)
        ensures
            r@ == array_display(self@),
        decreases self, 0nat,
    {
        match &self.inner {
            ArrayExpressionInner::Identifier(id) => id.to_string(),
            ArrayExpressionInner::Value(v) => {
                let mut s = String::from_str("[");
                s.append(expressions_to_string(v).as_str());
                s.append("]");
                s
            },
            ArrayExpressionInner::FunctionCall(k, args) => call_to_string(k.id.as_str(), args),
            ArrayExpressionInner::IfElse(c, a, b) => if_else_text(
                c.to_string().as_str(),
                a.to_string().as_str(),
                b.to_string().as_str(),
            ),
            ArrayExpressionInner::Member(s, m) => member_text(s.to_string().as_str(), m.as_str()),
            ArrayExpressionInner::Select(a, i) => select_text(
                a.to_string().as_str(),
                i.to_string().as_str(),
            ),
        }
    }
}

impl<T: Field> StructExpression<T> {
    /// The expression as text.
    pub fn to_string(&self) -> (r: String)
        ensures
            r@ == struct_display(self@),
        decreases self, 0nat,
    {
        match &self.inner {
            StructExpressionInner::Identifier(id) => id.to_string(),
            StructExpressionInner::Value(v) => {
                let mut list = String::new();
                let mut i: usize = 0;
                let ghost items = struct_values_display(self@.ty.members, expressions_model(v));
                assert(items.take(0) =~= Seq::<Seq<char>>::empty());
                while i < v.len() && i < self.ty.members.len()
                    invariant
                        i <= v.len(),
                        i <= self.ty.members.len(),
                        self.inner == StructExpressionInner::Value(*v),
                        items == struct_values_display(self@.ty.members, expressions_model(v)),
                        list@ == join(items.take(i as int), ", "@),
                    decreases v.len() - i,
                {
                    assert(self@.ty.members[i as int] == self.ty.members[i as int]@);
                    let mut item = self.ty.members[i].id.clone();
                    item.append(": ");
                    assert(self.inner is Value);
                    assert(decreases_to!(*self => self.inner));
                    assert(decreases_to!(self.inner => self.inner->Value_0));
                    assert(decreases_to!(*v => v[i as int]));
                    item.append(v[i].to_string().as_str());
                    proof {
                        assert(items.take(i + 1).drop_last() =~= items.take(i as int));
                    }
                    push_joined(&mut list, i, ", ", item.as_str(), Ghost(items.take(i + 1)));
                    i += 1;
                }
                assert(items.take(i as int) =~= items);
                let mut s = String::from_str("{");
                s.append(list.as_str());
                s.append("}");
                s
            },
            StructExpressionInner::FunctionCall(k, args) => call_to_string(k.id.as_str(), args),
            StructExpressionInner::IfElse(c, a, b) => if_else_text(
                c.to_string().as_str(),
                a.to_string().as_str(),
                b.to_string().as_str(),
            ),
            StructExpressionInner::Member(s, m) => member_text(
                s.to_string().as_str(),
                m.as_str(),
            ),
            StructExpressionInner::Select(a, i) => select_text(
                a.to_string().as_str(),
                i.to_string().as_str(),
            ),
        }
    }
}

} // verus!
