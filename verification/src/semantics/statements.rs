//! Checking assignees and statements.

use vstd::prelude::*;
use crate::absy::types::UnresolvedType;
use crate::absy::{
    Assignee, AssigneeNode, Expression, ExpressionNode, RangeOrExpression, Statement,
    StatementNode, VariableNode,
};
use crate::field::Field;
use crate::typed_absy::typed::Typed;
use crate::parser::Position;
use crate::semantics::declared::resolved_variable;
use crate::semantics::messages::{
    error_at, list_result_view, make_error, one_error, push_error, result_view,
};
use crate::semantics::query::{FunctionQuery, FunctionQueryView, hints_view};
use crate::semantics::rules::{type_text, type_to_string};
use crate::semantics::scope::{Checker, CheckerView};
use crate::semantics::typing::{
    checked_assignee, checked_expression, checked_expressions, function_not_found, without_slices,
};
use crate::semantics::{
    ErrorInner, ErrorInnerView, TypeMap, TypesView, inner_errors_view, structs_only,
};
use crate::typed_absy::display::expression_display;
use crate::typed_absy::expression::{
    TypedExpression, TypedExpressionView, expression_types, expressions_model,
};
use crate::typed_absy::identifier::{Identifier, IdentifierView};
use crate::typed_absy::program::{
    TypedAssignee, TypedAssigneeView, TypedExpressionList, TypedExpressionListView,
    TypedStatement, TypedStatementView, assignees_view, statements_model,
};
use crate::typed_absy::types::{Type, TypeView, same_type, type_display, types_view};
use crate::typed_absy::variable::{Variable, VariableView};

verus! {

/// The assignees among the first `n` of a list that can be typed, and the
/// errors of the others, both in order.
pub open spec fn checked_assignees<T: Field>(
    c: CheckerView,
    list: &Vec<AssigneeNode>,
    n: nat,
    module: Seq<char>,
    types: TypesView,
) -> (Seq<TypedAssigneeView>, Seq<ErrorInnerView>)
    decreases n,
{
    if n == 0 || n > list.len() {
        (Seq::empty(), Seq::empty())
    } else {
        let before = checked_assignees::<T>(c, list, (n - 1) as nat, module, types);
        match checked_assignee::<T>(c, &list[n - 1], module, types) {
            Ok(a) => (before.0.push(a), before.1),
            Err(e) => (before.0, before.1.push(e)),
        }
    }
}

/// For each assignee its type, as what is known of the value that a call
/// returns at its place.
pub open spec fn assignee_hints(assignees: Seq<TypedAssigneeView>) -> Seq<Option<TypeView>> {
    Seq::new(assignees.len(), |i: int| Some(assignees[i].get_type()))
}

/// What checking a statement leaves behind: the checker as it is
/// afterwards, and the typed statement or the errors.
pub type StatementOutcome = (CheckerView, Result<TypedStatementView, Seq<ErrorInnerView>>);

/// What checking a list of statements leaves behind.
pub type BlockOutcome = (CheckerView, Result<Seq<TypedStatementView>, Seq<ErrorInnerView>>);

/// The rule for a definition: the assignee and the expression have equal
/// types.
pub open spec fn typed_definition(
    pos: (Position, Position),
    a: TypedAssigneeView,
    x: TypedExpressionView,
) -> Result<TypedStatementView, Seq<ErrorInnerView>> {
    if same_type(a.get_type(), x.get_type()) {
        Ok(TypedStatementView::Definition(a, x))
    } else {
        Err(
            seq![
                error_at(
                    pos,
                    "Expression "@ + expression_display(x) + " of type "@ + type_text(x)
                        + " cannot be assigned to "@ + a.display() + " of type "@ + type_display(
                        a.get_type(),
                    ),
                ),
            ],
        )
    }
}

/// The rule for an assertion: a boolean.
pub open spec fn typed_assertion(pos: (Position, Position), x: TypedExpressionView) -> Result<
    TypedStatementView,
    Seq<ErrorInnerView>,
> {
    match x {
        TypedExpressionView::Boolean(b) => Ok(TypedStatementView::Assertion(b)),
        _ => Err(
            seq![
                error_at(
                    pos,
                    "Expected "@ + expression_display(x) + " to be of type bool, found "@
                        + type_text(x),
                ),
            ],
        ),
    }
}

/// The rule for a definition of several assignees by one call: a function
/// that takes the arguments and returns a value of the type of each
/// assignee.
pub open spec fn typed_multiple_definition(
    c: CheckerView,
    pos: (Position, Position),
    name: Seq<char>,
    assignees: Seq<TypedAssigneeView>,
    arguments: Seq<TypedExpressionView>,
) -> Result<TypedStatementView, Seq<ErrorInnerView>> {
    let query = FunctionQueryView {
        id: name,
        inputs: expression_types(arguments),
        outputs: assignee_hints(assignees),
    };
    match query.find(c.functions) {
        Some(f) => Ok(
            TypedStatementView::MultipleDefinition(
                assignees,
                TypedExpressionListView { key: f, arguments, types: f.signature.outputs },
            ),
        ),
        None => Err(seq![error_at(pos, function_not_found(name, query))]),
    }
}

/// What a loop that was entered at `level` leaves behind, given what its
/// body leaves behind. Either way the scope of the loop ends.
pub open spec fn for_outcome(
    body: BlockOutcome,
    v: VariableView,
    lower: crate::typed_absy::expression::FieldElementExpressionView,
    higher: crate::typed_absy::expression::FieldElementExpressionView,
    level: nat,
) -> StatementOutcome {
    match body.1 {
        Err(e) => (body.0.back_to(level), Err(e)),
        Ok(b) => (body.0.exit_scope(), Ok(TypedStatementView::For(v, lower, higher, b))),
    }
}

/// Whether the statement can be checked by a checker at the given level:
/// it is as the parser makes statements (no definition has a call on its
/// right, no assignee is indexed by a range), and its loops do not nest
/// deeper than levels can be counted.
pub open spec fn checkable(s: &StatementNode, level: nat) -> bool
    decreases s, 0nat,
{
    match s.value {
        Statement::Definition(a, e) => !(e.value is FunctionCall) && without_slices(&a),
        Statement::MultipleDefinition(assignees, _) => forall|i: int|
            0 <= i < assignees.len() ==> without_slices(#[trigger] &assignees[i]),
        Statement::For(_, _, _, body) => level < usize::MAX && block_checkable(
            &body,
            body.len() as nat,
            level + 1,
        ),
        _ => true,
    }
}

/// Whether the first `n` statements of a list can be checked by a checker
/// at the given level.
pub open spec fn block_checkable(list: &Vec<StatementNode>, n: nat, level: nat) -> bool
    decreases list, n,
{
    if n == 0 || n > list.len() {
        true
    } else {
        block_checkable(list, (n - 1) as nat, level) && checkable(&list[n - 1], level)
    }
}

/// What checking a `return` leaves behind.
pub open spec fn checked_return<T: Field>(
    c: CheckerView,
    list: &Vec<ExpressionNode>,
    module: Seq<char>,
    types: TypesView,
) -> StatementOutcome {
    (
        c,
        match checked_expressions::<T>(c, list, list.len() as nat, module, types) {
            Ok(v) => Ok(TypedStatementView::Return(v)),
            Err(e) => Err(seq![e]),
        },
    )
}

/// What checking a declaration leaves behind: the variable is in scope
/// afterwards, unless its type is not known or its name is taken.
pub open spec fn checked_declaration(
    c: CheckerView,
    pos: (Position, Position),
    var: &VariableNode,
    module: Seq<char>,
    types: TypesView,
) -> StatementOutcome {
    match resolved_variable(var, module, types) {
        Err(e) => (c, Err(e)),
        Ok(v) => if c.in_scope(v.id) {
            (
                c,
                Err(
                    seq![
                        error_at(
                            pos,
                            "Duplicate declaration for variable named "@ + v.id.display(),
                        ),
                    ],
                ),
            )
        } else {
            (c.insert_into_scope(v), Ok(TypedStatementView::Declaration(v)))
        },
    }
}

/// What checking a definition leaves behind.
pub open spec fn checked_definition<T: Field>(
    c: CheckerView,
    pos: (Position, Position),
    assignee: &AssigneeNode,
    expr: &ExpressionNode,
    module: Seq<char>,
    types: TypesView,
) -> StatementOutcome {
    (
        c,
        match checked_expression::<T>(c, expr, module, types) {
            Err(e) => Err(seq![e]),
            Ok(x) => match checked_assignee::<T>(c, assignee, module, types) {
                Err(e) => Err(seq![e]),
                Ok(a) => typed_definition(pos, a, x),
            },
        },
    )
}

/// What checking an assertion leaves behind.
pub open spec fn checked_assertion<T: Field>(
    c: CheckerView,
    pos: (Position, Position),
    e: &ExpressionNode,
    module: Seq<char>,
    types: TypesView,
) -> StatementOutcome {
    (
        c,
        match checked_expression::<T>(c, e, module, types) {
            Err(e) => Err(seq![e]),
            Ok(x) => typed_assertion(pos, x),
        },
    )
}

/// What checking a definition of several assignees leaves behind.
pub open spec fn checked_multiple_definition<T: Field>(
    c: CheckerView,
    pos: (Position, Position),
    assignees: &Vec<AssigneeNode>,
    rhs: &ExpressionNode,
    module: Seq<char>,
    types: TypesView,
) -> StatementOutcome {
    (
        c,
        match rhs.value {
            Expression::FunctionCall(name, arguments) => {
                let targets = checked_assignees::<T>(
                    c,
                    assignees,
                    assignees.len() as nat,
                    module,
                    types,
                );
                if targets.1.len() > 0 {
                    Err(targets.1)
                } else {
                    match checked_expressions::<T>(
                        c,
                        &arguments,
                        arguments.len() as nat,
                        module,
                        types,
                    ) {
                        Err(e) => Err(seq![e]),
                        Ok(args) => typed_multiple_definition(c, pos, name@, targets.0, args),
                    }
                }
            },
            _ => Err(seq![error_at(pos, rhs.value.display() + " should be a function call"@)]),
        },
    )
}

/// The variable of a loop.
pub open spec fn loop_variable(var: &VariableNode) -> VariableView {
    VariableView { id: IdentifierView::source(var.value.id@), ty: TypeView::FieldElement }
}

/// What checking the head of a loop leaves behind: the checker inside the
/// scope of the loop, and the bounds, or what is wrong with the variable or
/// the bounds.
pub open spec fn checked_loop_head<T: Field>(
    c: CheckerView,
    pos: (Position, Position),
    var: &VariableNode,
    from: &ExpressionNode,
    to: &ExpressionNode,
    module: Seq<char>,
    types: TypesView,
) -> Result<
    (
        crate::typed_absy::expression::FieldElementExpressionView,
        crate::typed_absy::expression::FieldElementExpressionView,
    ),
    Seq<ErrorInnerView>,
> {
    let inside = c.enter_scope();
    match var.value._type.value {
        UnresolvedType::FieldElement => match checked_expression::<T>(inside, from, module, types) {
            Err(e) => Err(seq![e]),
            Ok(f) => match checked_expression::<T>(inside, to, module, types) {
                Err(e) => Err(seq![e]),
                Ok(t) => match f {
                    TypedExpressionView::FieldElement(lower) => match t {
                        TypedExpressionView::FieldElement(higher) => Ok((lower, higher)),
                        _ => Err(
                            seq![
                                error_at(
                                    pos,
                                    "Expected higher loop bound to be of type field, found "@
                                        + type_text(t),
                                ),
                            ],
                        ),
                    },
                    _ => Err(
                        seq![
                            error_at(
                                pos,
                                "Expected lower loop bound to be of type field, found "@
                                    + type_text(f),
                            ),
                        ],
                    ),
                },
            },
        },
        t => Err(
            seq![
                error_at(
                    (var.start, var.end),
                    "Variable in for loop cannot have type "@ + t.display(),
                ),
            ],
        ),
    }
}

/// What checking a loop leaves behind.
pub open spec fn checked_for<T: Field>(
    c: CheckerView,
    pos: (Position, Position),
    var: &VariableNode,
    from: &ExpressionNode,
    to: &ExpressionNode,
    statements: &Vec<StatementNode>,
    module: Seq<char>,
    types: TypesView,
) -> StatementOutcome
    decreases statements, statements.len() + 1,
{
    match checked_loop_head::<T>(c, pos, var, from, to, module, types) {
        Err(e) => (c.enter_scope().back_to(c.level), Err(e)),
        Ok(bounds) => for_outcome(
            checked_block::<T>(
                c.enter_scope().insert_into_scope(loop_variable(var)),
                statements,
                statements.len() as nat,
                module,
                types,
            ),
            loop_variable(var),
            bounds.0,
            bounds.1,
            c.level,
        ),
    }
}

/// What checking a statement leaves behind.
pub open spec fn checked_statement<T: Field>(
    c: CheckerView,
    s: &StatementNode,
    module: Seq<char>,
    types: TypesView,
) -> StatementOutcome
    decreases s, 0nat,
{
    let pos = (s.start, s.end);
    match s.value {
        Statement::Return(list) => checked_return::<T>(c, &list.value.expressions, module, types),
        Statement::Declaration(var) => checked_declaration(c, pos, &var, module, types),
        Statement::Definition(assignee, expr) => checked_definition::<T>(
            c,
            pos,
            &assignee,
            &expr,
            module,
            types,
        ),
        Statement::Assertion(e) => checked_assertion::<T>(c, pos, &e, module, types),
        Statement::For(var, from, to, statements) => checked_for::<T>(
            c,
            pos,
            &var,
            &from,
            &to,
            &statements,
            module,
            types,
        ),
        Statement::MultipleDefinition(assignees, rhs) => checked_multiple_definition::<T>(
            c,
            pos,
            &assignees,
            &rhs,
            module,
            types,
        ),
    }
}

/// What checking the first `n` statements of a list leaves behind. Checking
/// stops at the first statement that is wrong.
pub open spec fn checked_block<T: Field>(
    c: CheckerView,
    list: &Vec<StatementNode>,
    n: nat,
    module: Seq<char>,
    types: TypesView,
) -> BlockOutcome
    decreases list, n,
{
    if n == 0 || n > list.len() {
        (c, Ok(Seq::empty()))
    } else {
        let before = checked_block::<T>(c, list, (n - 1) as nat, module, types);
        match before.1 {
            Err(e) => before,
            Ok(v) => {
                let s = checked_statement::<T>(before.0, &list[n - 1], module, types);
                match s.1 {
                    Err(e) => (s.0, Err(e)),
                    Ok(x) => (s.0, Ok(v.push(x))),
                }
            },
        }
    }
}

/// Once the statements of a prefix fail, every longer prefix leaves the
/// same behind.
pub proof fn lemma_checked_block_fail<T: Field>(
    c: CheckerView,
    list: &Vec<StatementNode>,
    n: nat,
    m: nat,
    module: Seq<char>,
    types: TypesView,
)
    requires
        n <= m <= list.len(),
        checked_block::<T>(c, list, n, module, types).1 is Err,
    ensures
        checked_block::<T>(c, list, m, module, types) == checked_block::<T>(
            c,
            list,
            n,
            module,
            types,
        ),
    decreases m - n,
{
    if n < m {
        lemma_checked_block_fail::<T>(c, list, n, (m - 1) as nat, module, types);
    }
}

/// A shorter prefix of a list of statements that can be checked can be
/// checked.
pub proof fn lemma_block_checkable(list: &Vec<StatementNode>, n: nat, m: nat, level: nat)
    requires
        n <= m <= list.len(),
        block_checkable(list, m, level),
    ensures
        block_checkable(list, n, level),
        n < m ==> checkable(&list[n as int], level),
    decreases m - n,
{
    if n < m {
        lemma_block_checkable(list, n, (m - 1) as nat, level);
        if n + 1 < m {
            lemma_block_checkable(list, (n + 1) as nat, m, level);
        }
    }
}

/// Whether the statement is as the parser makes statements: no definition
/// has a call on its right, and no assignee is indexed by a range.
pub open spec fn well_formed(s: &StatementNode) -> bool
    decreases s, 0nat,
{
    match s.value {
        Statement::Definition(a, e) => !(e.value is FunctionCall) && without_slices(&a),
        Statement::MultipleDefinition(assignees, _) => forall|i: int|
            0 <= i < assignees.len() ==> without_slices(#[trigger] &assignees[i]),
        Statement::For(_, _, _, body) => block_well_formed(&body, body.len() as nat),
        _ => true,
    }
}

/// Whether the first `n` statements of a list are as the parser makes
/// statements.
pub open spec fn block_well_formed(list: &Vec<StatementNode>, n: nat) -> bool
    decreases list, n,
{
    if n == 0 || n > list.len() {
        true
    } else {
        block_well_formed(list, (n - 1) as nat) && well_formed(&list[n - 1])
    }
}

/// The number of loops in a statement.
pub open spec fn loops(s: &StatementNode) -> nat
    decreases s, 0nat,
{
    match s.value {
        Statement::For(_, _, _, body) => 1 + block_loops(&body, body.len() as nat),
        _ => 0,
    }
}

/// The number of loops in the first `n` statements of a list.
pub open spec fn block_loops(list: &Vec<StatementNode>, n: nat) -> nat
    decreases list, n,
{
    if n == 0 || n > list.len() {
        0
    } else {
        block_loops(list, (n - 1) as nat) + loops(&list[n - 1])
    }
}

/// A statement that is as the parser makes statements can be checked at
/// every level that leaves room for its loops.
pub proof fn lemma_checkable(s: &StatementNode, level: nat)
    requires
        well_formed(s),
        level + loops(s) <= usize::MAX,
    ensures
        checkable(s, level),
    decreases s, 0nat,
{
    match s.value {
        Statement::For(_, _, _, body) => {
            lemma_block_is_checkable(&body, body.len() as nat, level + 1);
        },
        _ => {},
    }
}

/// Statements that are as the parser makes statements can be checked at
/// every level that leaves room for their loops.
pub proof fn lemma_block_is_checkable(list: &Vec<StatementNode>, n: nat, level: nat)
    requires
        block_well_formed(list, n),
        level + block_loops(list, n) <= usize::MAX,
    ensures
        block_checkable(list, n, level),
    decreases list, n,
{
    if !(n == 0 || n > list.len()) {
        lemma_block_is_checkable(list, (n - 1) as nat, level);
        lemma_checkable(&list[n - 1], level);
    }
}

/// The loops of a prefix of a list are among the loops of the list.
pub proof fn lemma_block_loops_monotonic(list: &Vec<StatementNode>, n: nat, m: nat)
    requires
        n <= m <= list.len(),
    ensures
        block_loops(list, n) <= block_loops(list, m),
        n < m ==> block_loops(list, n) + loops(&list[n as int]) <= block_loops(list, m),
    decreases m - n,
{
    if n < m {
        lemma_block_loops_monotonic(list, n, (m - 1) as nat);
        if n + 1 < m {
            lemma_block_loops_monotonic(list, (n + 1) as nat, m);
        }
    }
}

/// A list of statements that can be checked has no more loops nested than
/// levels can be counted, and is as the parser makes statements.
pub proof fn lemma_block_well_formed_prefix(list: &Vec<StatementNode>, n: nat, m: nat)
    requires
        n <= m <= list.len(),
        block_well_formed(list, m),
    ensures
        block_well_formed(list, n),
        n < m ==> well_formed(&list[n as int]),
    decreases m - n,
{
    if n < m {
        lemma_block_well_formed_prefix(list, n, (m - 1) as nat);
        if n + 1 < m {
            lemma_block_well_formed_prefix(list, (n + 1) as nat, m);
        }
    }
}

/// The views of the assignees of a list can be typed.
pub open spec fn all_typed<T: Field>(list: Seq<TypedAssignee<T>>) -> bool {
    forall|i: int| 0 <= i < list.len() ==> (#[trigger] list[i])@.typed()
}

impl Checker {
    /// Checks an assignee: the typed assignee it stands for, or the first
    /// thing wrong with it.
    pub fn check_assignee<T: Field>(
        &self,
        assignee: AssigneeNode,
        module_id: &String,
        types: &TypeMap,
    ) -> (r: Result<TypedAssignee<T>, ErrorInner>)
        requires
            structs_only(types@),
            without_slices(&assignee),
        ensures
            result_view(r) == checked_assignee::<T>(self@, &assignee, module_id@, types@),
            r matches Ok(a) ==> a@.typed(),
        decreases assignee,
    {
        let pos = assignee.pos();
        match assignee.value {
            Assignee::Identifier(variable_name) => {
                let found = match self.get_scope(variable_name.as_str()) {
                    Some(var) => Some(var.id.get_type()),
                    None => None,
                };
                match found {
                    Some(ty) => Ok(
                        TypedAssignee::Identifier(
                            Variable::with_id_and_type(
                                Identifier::from(variable_name.as_str()),
                                ty,
                            ),
                        ),
                    ),
                    None => {
                        let mut s = String::from_str("Variable `");
                        s.append(variable_name.as_str());
                        s.append("` is undeclared");
                        Err(make_error(pos, s))
                    },
                }
            },
            Assignee::Select(sub, index) => {
                let checked_assignee = match self.check_assignee(*sub, module_id, types) {
                    Ok(a) => a,
                    Err(e) => {
                        return Err(e);
                    },
                };
                let ty = checked_assignee.get_type();
                match ty {
                    Type::Array(_) => {
                        let checked_index = match *index {
                            RangeOrExpression::Expression(e) => match self.check_expression(
                                e,
                                module_id,
                                types,
                            ) {
                                Ok(x) => x,
                                Err(e) => {
                                    return Err(e);
                                },
                            },
                            RangeOrExpression::Range(_) => {
                                proof {
                                    assert(false);
                                }
                                return Err(make_error(pos, String::new()));
                            },
                        };
                        match checked_index {
                            TypedExpression::FieldElement(e) => Ok(
                                TypedAssignee::Select(Box::new(checked_assignee), Box::new(e)),
                            ),
                            e => {
                                let mut s = String::from_str("Expected array ");
                                s.append(checked_assignee.to_string().as_str());
                                s.append(" index to have type field, found ");
                                s.append(type_to_string(&e).as_str());
                                Err(make_error(pos, s))
                            },
                        }
                    },
                    ty => {
                        let mut s = String::from_str("Cannot access element at index ");
                        s.append(index.to_string().as_str());
                        s.append(" on ");
                        s.append(checked_assignee.to_string().as_str());
                        s.append(" of type ");
                        s.append(ty.to_string().as_str());
                        Err(make_error(pos, s))
                    },
                }
            },
            Assignee::Member(sub, member) => {
                let checked_assignee = match self.check_assignee(*sub, module_id, types) {
                    Ok(a) => a,
                    Err(e) => {
                        return Err(e);
                    },
                };
                let ty = checked_assignee.get_type();
                let has_member = match &ty {
                    Type::Struct(members) => Some(members.find_member(member.as_str()).is_some()),
                    _ => None,
                };
                match has_member {
                    Some(true) => Ok(TypedAssignee::Member(Box::new(checked_assignee), *member)),
                    Some(false) => {
                        let mut s = ty.to_string();
                        s.append(" doesn't have member ");
                        s.append(member.as_str());
                        Err(make_error(pos, s))
                    },
                    None => {
                        let mut s = String::from_str("Cannot access field ");
                        s.append(member.as_str());
                        s.append(" on ");
                        s.append(checked_assignee.to_string().as_str());
                        s.append(" as of type ");
                        s.append(ty.to_string().as_str());
                        Err(make_error(pos, s))
                    },
                }
            },
        }
    }

    /// Checks every assignee of a list; the errors of those that are wrong
    /// go to `errors`.
    fn check_assignees<T: Field>(
        &self,
        list: Vec<AssigneeNode>,
        module_id: &String,
        types: &TypeMap,
        errors: &mut Vec<ErrorInner>,
    ) -> (r: Vec<TypedAssignee<T>>)
        requires
            structs_only(types@),
            forall|i: int| 0 <= i < list.len() ==> without_slices(#[trigger] &list[i]),
            old(errors)@.len() == 0,
        ensures
            assignees_view(r@) == checked_assignees::<T>(
                self@,
                &list,
                list.len() as nat,
                module_id@,
                types@,
            ).0,
            inner_errors_view(final(errors)@) == checked_assignees::<T>(
                self@,
                &list,
                list.len() as nat,
                module_id@,
                types@,
            ).1,
            all_typed(r@),
    {
        let mut out: Vec<TypedAssignee<T>> = Vec::new();
        let ghost all = list;
        assert(assignees_view(out@) =~= Seq::<TypedAssigneeView>::empty());
        assert(inner_errors_view(errors@) =~= Seq::<ErrorInnerView>::empty());
        for a in it: list
            invariant
                structs_only(types@),
                it.seq() == all@,
                forall|i: int| 0 <= i < all.len() ==> without_slices(#[trigger] &all[i]),
                assignees_view(out@) == checked_assignees::<T>(
                    self@,
                    &all,
                    it.index() as nat,
                    module_id@,
                    types@,
                ).0,
                inner_errors_view(errors@) == checked_assignees::<T>(
                    self@,
                    &all,
                    it.index() as nat,
                    module_id@,
                    types@,
                ).1,
                all_typed(out@),
        {
            let ghost old_out = assignees_view(out@);
            assert(a == all[it.index() as int]);
            assert(without_slices(&all[it.index() as int]));
            match self.check_assignee(a, module_id, types) {
                Ok(checked) => {
                    out.push(checked);
                    assert(assignees_view(out@) =~= old_out.push(checked@));
                },
                Err(e) => {
                    push_error(errors, e);
                },
            }
        }
        out
    }
}

/// For each assignee its type, as what is known of the value that a call
/// returns at its place.
fn hints_of<T: Field>(assignees: &Vec<TypedAssignee<T>>) -> (r: Vec<Option<Type>>)
    requires
        all_typed(assignees@),
    ensures
        hints_view(r@) == assignee_hints(assignees_view(assignees@)),
{
    let mut out: Vec<Option<Type>> = Vec::new();
    let mut i: usize = 0;
    while i < assignees.len()
        invariant
            i <= assignees.len(),
            all_typed(assignees@),
            out.len() == i,
            forall|j: int| 0 <= j < i ==> hints_view(out@)[j] == Some(assignees[j]@.get_type()),
        decreases assignees.len() - i,
    {
        assert(assignees[i as int]@.typed());
        let ty = assignees[i].get_type();
        let ghost before = out@;
        out.push(Some(ty));
        assert forall|j: int| 0 <= j < i + 1 implies hints_view(out@)[j] == Some(
            assignees[j]@.get_type(),
        ) by {
            if j < i {
                assert(hints_view(before)[j] == Some(assignees[j]@.get_type()));
                assert(out@[j] == before[j]);
            }
        }
        i += 1;
    }
    assert(hints_view(out@) =~= assignee_hints(assignees_view(assignees@)));
    out
}

/// The rule for a definition of several assignees by one call.
fn type_multiple_definition<T: Field>(
    checker: &Checker,
    pos: (Position, Position),
    name: String,
    assignees: Vec<TypedAssignee<T>>,
    arguments: Vec<TypedExpression<T>>,
) -> (r: Result<TypedStatement<T>, Vec<ErrorInner>>)
    requires
        all_typed(assignees@),
    ensures
        list_result_view(r) == typed_multiple_definition(
            checker@,
            pos,
            name@,
            assignees_view(assignees@),
            expressions_model(&arguments),
        ),
{
    let assignee_types = hints_of(&assignees);
    let mut arguments_types: Vec<Type> = Vec::new();
    let mut i: usize = 0;
    while i < arguments.len()
        invariant
            i <= arguments.len(),
            arguments_types.len() == i,
            forall|j: int| 0 <= j < i ==> arguments_types[j]@ == arguments[j]@.get_type(),
        decreases arguments.len() - i,
    {
        arguments_types.push(arguments[i].get_type());
        i += 1;
    }
    assert(types_view(arguments_types@) =~= expression_types(expressions_model(&arguments)));
    let query = FunctionQuery::new(name.as_str(), &arguments_types, &assignee_types);
    match checker.find_function(&query) {
        Some(f) => {
            let outputs = crate::typed_absy::types::types_copy(&f.signature.outputs);
            let call = TypedExpressionList::FunctionCall(f, arguments, outputs);
            Ok(TypedStatement::MultipleDefinition(assignees, call))
        },
        None => {
            let mut s = String::from_str("Function definition for function ");
            s.append(name.as_str());
            s.append(" with signature ");
            s.append(query.to_string().as_str());
            s.append(" not found.");
            Err(one_error(make_error(pos, s)))
        },
    }
}

impl Checker {
    /// Checks the variable of a loop: it is a field element.
    pub fn check_for_var(&self, var: &VariableNode) -> (r: Result<(), ErrorInner>)
        ensures
            r is Ok <==> var.value._type.value is FieldElement,
            r matches Err(e) ==> e@ == error_at(
                (var.start, var.end),
                "Variable in for loop cannot have type "@ + var.value._type.value.display(),
            ),
    {
        match &var.value._type.value {
            UnresolvedType::FieldElement => Ok(()),
            t => {
                let mut s = String::from_str("Variable in for loop cannot have type ");
                s.append(t.to_string().as_str());
                Err(make_error(var.pos(), s))
            },
        }
    }

    /// Checks a `return`.
    fn check_return<T: Field>(
        &self,
        list: Vec<ExpressionNode>,
        module_id: &String,
        types: &TypeMap,
    ) -> (r: Result<TypedStatement<T>, Vec<ErrorInner>>)
        requires
            structs_only(types@),
        ensures
            (self@, list_result_view(r)) == checked_return::<T>(self@, &list, module_id@, types@),
    {
        match self.check_expressions(list, module_id, types) {
            Ok(checked) => Ok(TypedStatement::Return(checked)),
            Err(e) => Err(one_error(e)),
        }
    }

    /// Checks a declaration.
    fn check_declaration<T: Field>(
        &mut self,
        pos: (Position, Position),
        var: VariableNode,
        module_id: &String,
        types: &TypeMap,
    ) -> (r: Result<TypedStatement<T>, Vec<ErrorInner>>)
        ensures
            (final(self)@, list_result_view(r)) == checked_declaration(
                old(self)@,
                pos,
                &var,
                module_id@,
                types@,
            ),
            final(self).level == old(self).level,
    {
        let var = match self.check_variable(var, module_id, types) {
            Ok(v) => v,
            Err(e) => {
                return Err(e);
            },
        };
        if self.insert_into_scope(var.clone()) {
            Ok(TypedStatement::Declaration(var))
        } else {
            let mut s = String::from_str("Duplicate declaration for variable named ");
            s.append(var.id.to_string().as_str());
            Err(one_error(make_error(pos, s)))
        }
    }

    /// Checks a definition.
    fn check_definition<T: Field>(
        &self,
        pos: (Position, Position),
        assignee: AssigneeNode,
        expr: ExpressionNode,
        module_id: &String,
        types: &TypeMap,
    ) -> (r: Result<TypedStatement<T>, Vec<ErrorInner>>)
        requires
            structs_only(types@),
            without_slices(&assignee),
        ensures
            (self@, list_result_view(r)) == checked_definition::<T>(
                self@,
                pos,
                &assignee,
                &expr,
                module_id@,
                types@,
            ),
    {
        let checked_expr = match self.check_expression(expr, module_id, types) {
            Ok(x) => x,
            Err(e) => {
                return Err(one_error(e));
            },
        };
        let var = match self.check_assignee(assignee, module_id, types) {
            Ok(a) => a,
            Err(e) => {
                return Err(one_error(e));
            },
        };
        let expression_type = checked_expr.get_type();
        let var_type = var.get_type();
        if var_type.same(&expression_type) {
            Ok(TypedStatement::Definition(var, checked_expr))
        } else {
            let mut s = String::from_str("Expression ");
            s.append(checked_expr.to_string().as_str());
            s.append(" of type ");
            s.append(expression_type.to_string().as_str());
            s.append(" cannot be assigned to ");
            s.append(var.to_string().as_str());
            s.append(" of type ");
            s.append(var_type.to_string().as_str());
            Err(one_error(make_error(pos, s)))
        }
    }

    /// Checks an assertion.
    fn check_assertion<T: Field>(
        &self,
        pos: (Position, Position),
        e: ExpressionNode,
        module_id: &String,
        types: &TypeMap,
    ) -> (r: Result<TypedStatement<T>, Vec<ErrorInner>>)
        requires
            structs_only(types@),
        ensures
            (self@, list_result_view(r)) == checked_assertion::<T>(
                self@,
                pos,
                &e,
                module_id@,
                types@,
            ),
    {
        match self.check_expression(e, module_id, types) {
            Ok(TypedExpression::Boolean(e)) => Ok(TypedStatement::Assertion(e)),
            Ok(e) => {
                let mut s = String::from_str("Expected ");
                s.append(e.to_string().as_str());
                s.append(" to be of type bool, found ");
                s.append(type_to_string(&e).as_str());
                Err(one_error(make_error(pos, s)))
            },
            Err(e) => Err(one_error(e)),
        }
    }

    /// Checks a definition of several assignees by one call.
    fn check_multiple_definition<T: Field>(
        &self,
        pos: (Position, Position),
        assignees: Vec<AssigneeNode>,
        rhs: ExpressionNode,
        module_id: &String,
        types: &TypeMap,
    ) -> (r: Result<TypedStatement<T>, Vec<ErrorInner>>)
        requires
            structs_only(types@),
            forall|i: int| 0 <= i < assignees.len() ==> without_slices(#[trigger] &assignees[i]),
        ensures
            (self@, list_result_view(r)) == checked_multiple_definition::<T>(
                self@,
                pos,
                &assignees,
                &rhs,
                module_id@,
                types@,
            ),
    {
        match rhs.value {
            Expression::FunctionCall(fun_id, arguments) => {
                let mut errors: Vec<ErrorInner> = Vec::new();
                let assignees = self.check_assignees(assignees, module_id, types, &mut errors);
                if errors.len() > 0 {
                    return Err(errors);
                }
                let arguments_checked = match self.check_expressions(arguments, module_id, types) {
                    Ok(v) => v,
                    Err(e) => {
                        return Err(one_error(e));
                    },
                };
                type_multiple_definition(self, pos, fun_id, assignees, arguments_checked)
            },
            other => {
                let mut s = other.to_string();
                s.append(" should be a function call");
                Err(one_error(make_error(pos, s)))
            },
        }
    }

    /// Checks the head of a loop: the variable and the bounds. The checker
    /// is inside the scope of the loop afterwards.
    fn check_loop_head<T: Field>(
        &mut self,
        pos: (Position, Position),
        var: &VariableNode,
        from: ExpressionNode,
        to: ExpressionNode,
        module_id: &String,
        types: &TypeMap,
    ) -> (r: Result<
        (
            crate::typed_absy::expression::FieldElementExpression<T>,
            crate::typed_absy::expression::FieldElementExpression<T>,
        ),
        Vec<ErrorInner>,
    >)
        requires
            structs_only(types@),
            old(self).level < usize::MAX,
        ensures
            final(self)@ == old(self)@.enter_scope(),
            match r {
                Ok((lower, higher)) => checked_loop_head::<T>(
                    old(self)@,
                    pos,
                    var,
                    &from,
                    &to,
                    module_id@,
                    types@,
                ) == Ok::<_, Seq<ErrorInnerView>>((lower@, higher@)),
                Err(e) => checked_loop_head::<T>(
                    old(self)@,
                    pos,
                    var,
                    &from,
                    &to,
                    module_id@,
                    types@,
                ) == Err::<
                    (
                        crate::typed_absy::expression::FieldElementExpressionView,
                        crate::typed_absy::expression::FieldElementExpressionView,
                    ),
                    _,
                >(inner_errors_view(e@)),
            },
    {
        self.enter_scope();
        match self.check_for_var(var) {
            Ok(()) => {},
            Err(e) => {
                return Err(one_error(e));
            },
        }
        let from = match self.check_expression(from, module_id, types) {
            Ok(x) => x,
            Err(e) => {
                return Err(one_error(e));
            },
        };
        let to = match self.check_expression(to, module_id, types) {
            Ok(x) => x,
            Err(e) => {
                return Err(one_error(e));
            },
        };
        let from = match from {
            TypedExpression::FieldElement(e) => e,
            e => {
                let mut s = String::from_str(
                    "Expected lower loop bound to be of type field, found ",
                );
                s.append(type_to_string(&e).as_str());
                return Err(one_error(make_error(pos, s)));
            },
        };
        let to = match to {
            TypedExpression::FieldElement(e) => e,
            e => {
                let mut s = String::from_str(
                    "Expected higher loop bound to be of type field, found ",
                );
                s.append(type_to_string(&e).as_str());
                return Err(one_error(make_error(pos, s)));
            },
        };
        Ok((from, to))
    }

    /// Checks a loop: its head, and then the statements of its body inside
    /// the scope of the loop.
    fn check_for<T: Field>(
        &mut self,
        pos: (Position, Position),
        var: VariableNode,
        from: ExpressionNode,
        to: ExpressionNode,
        statements: Vec<StatementNode>,
        module_id: &String,
        types: &TypeMap,
    ) -> (r: Result<TypedStatement<T>, Vec<ErrorInner>>)
        requires
            structs_only(types@),
            old(self).level < usize::MAX,
            block_checkable(&statements, statements.len() as nat, (old(self).level + 1) as nat),
        ensures
            (final(self)@, list_result_view(r)) == checked_for::<T>(
                old(self)@,
                pos,
                &var,
                &from,
                &to,
                &statements,
                module_id@,
                types@,
            ),
            r is Ok ==> final(self).level == old(self).level,
            old(self).level <= final(self).level <= old(self).level + 1 + block_loops(
                &statements,
                statements.len() as nat,
            ),
        decreases statements,
    {
        let ghost whole = checked_for::<T>(
            old(self)@,
            pos,
            &var,
            &from,
            &to,
            &statements,
            module_id@,
            types@,
        );
        let level = self.level;
        let (lower, higher) = match self.check_loop_head(pos, &var, from, to, module_id, types) {
            Ok(bounds) => bounds,
            Err(e) => {
                self.back_to(level);
                return Err(e);
            },
        };
        let variable = Variable::with_id_and_type(
            Identifier::from(var.value.id.as_str()),
            Type::FieldElement,
        );
        self.insert_into_scope(variable.clone());
        let ghost start = self@;
        let ghost all = statements;
        let mut checked_statements: Vec<TypedStatement<T>> = Vec::new();
        assert(statements_model(&checked_statements) =~= Seq::<TypedStatementView>::empty());
        assert(whole == for_outcome(
            checked_block::<T>(start, &all, all.len() as nat, module_id@, types@),
            variable@,
            lower@,
            higher@,
            level as nat,
        ));
        for s in it: statements
            invariant
                structs_only(types@),
                it.seq() == all@,
                all == statements,
                whole == for_outcome(
                    checked_block::<T>(start, &all, all.len() as nat, module_id@, types@),
                    variable@,
                    lower@,
                    higher@,
                    level as nat,
                ),
                level == old(self).level,
                level < usize::MAX,
                whole == checked_for::<T>(
                    old(self)@,
                    pos,
                    &var,
                    &from,
                    &to,
                    &statements,
                    module_id@,
                    types@,
                ),
                self.level == old(self).level + 1,
                block_checkable(&all, all.len() as nat, self.level as nat),
                checked_block::<T>(start, &all, it.index() as nat, module_id@, types@) == (
                    self@,
                    Ok::<_, Seq<ErrorInnerView>>(statements_model(&checked_statements)),
                ),
        {
            let ghost before = statements_model(&checked_statements);
            let ghost index = it.index() as nat;
            assert(s == all[it.index() as int]);
            proof {
                lemma_block_checkable(&all, index, all.len() as nat, self.level as nat);
                assert(decreases_to!(all => all[it.index() as int]));
                lemma_checked_block_step::<T>(start, &all, index, module_id@, types@);
                lemma_block_loops_monotonic(&all, index, all.len() as nat);
            }
            match self.check_statement(s, module_id, types) {
                Ok(checked) => {
                    checked_statements.push(checked);
                    assert(statements_model(&checked_statements) =~= before.push(checked@));
                },
                Err(e) => {
                    proof {
                        lemma_checked_block_fail::<T>(
                            start,
                            &all,
                            (index + 1) as nat,
                            all.len() as nat,
                            module_id@,
                            types@,
                        );
                    }
                    self.back_to(level);
                    return Err(e);
                },
            }
        }
        self.exit_scope();
        Ok(TypedStatement::For(variable, lower, higher, checked_statements))
    }

    /// Checks a statement. A declaration changes what is in scope; the
    /// scope of a loop ends with the loop, whether it is right or wrong.
    pub fn check_statement<T: Field>(
        &mut self,
        stat: StatementNode,
        module_id: &String,
        types: &TypeMap,
    ) -> (r: Result<TypedStatement<T>, Vec<ErrorInner>>)
        requires
            structs_only(types@),
            checkable(&stat, old(self).level as nat),
        ensures
            (final(self)@, list_result_view(r)) == checked_statement::<T>(
                old(self)@,
                &stat,
                module_id@,
                types@,
            ),
            r is Ok ==> final(self).level == old(self).level,
            old(self).level <= final(self).level <= old(self).level + loops(&stat),
        decreases stat,
    {
        let pos = stat.pos();
        match stat.value {
            Statement::Return(list) => self.check_return(
                list.value.expressions,
                module_id,
                types,
            ),
            Statement::Declaration(var) => self.check_declaration(pos, var, module_id, types),
            Statement::Definition(assignee, expr) => self.check_definition(
                pos,
                assignee,
                expr,
                module_id,
                types,
            ),
            Statement::Assertion(e) => self.check_assertion(pos, e, module_id, types),
            Statement::For(var, from, to, statements) => self.check_for(
                pos,
                var,
                from,
                to,
                statements,
                module_id,
                types,
            ),
            Statement::MultipleDefinition(assignees, rhs) => self.check_multiple_definition(
                pos,
                assignees,
                rhs,
                module_id,
                types,
            ),
        }
    }
}

/// The next step of checking a list of statements whose first `n` are
/// right.
pub proof fn lemma_checked_block_step<T: Field>(
    c: CheckerView,
    list: &Vec<StatementNode>,
    n: nat,
    module: Seq<char>,
    types: TypesView,
)
    requires
        n < list.len(),
        checked_block::<T>(c, list, n, module, types).1 is Ok,
    ensures
        checked_block::<T>(c, list, (n + 1) as nat, module, types) == ({
            let before = checked_block::<T>(c, list, n, module, types);
            let s = checked_statement::<T>(before.0, &list[n as int], module, types);
            match s.1 {
                Err(e) => (s.0, Err::<Seq<TypedStatementView>, _>(e)),
                Ok(x) => (s.0, Ok::<_, Seq<ErrorInnerView>>(before.1->Ok_0.push(x))),
            }
        }),
{
}

} // verus!
