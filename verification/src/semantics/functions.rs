//! Checking functions.

use vstd::prelude::*;
use crate::absy::{FunctionNode, ParameterNode, Statement, StatementNode};
use crate::field::Field;
use crate::typed_absy::typed::Typed;
use crate::parser::Position;
use crate::semantics::declared::{resolved_parameter, resolved_signature};
use crate::semantics::messages::{
    error_at, extend_errors, list_result_view, make_error, push_error,
};
use crate::semantics::scope::{Checker, CheckerView};
use crate::semantics::statements::{
    block_loops, block_well_formed, checked_statement, lemma_block_loops_monotonic,
    lemma_block_well_formed_prefix, lemma_checkable, loops,
};
use crate::semantics::{
    ErrorInner, ErrorInnerView, TypeMap, TypesView, inner_errors_view, structs_only,
};
use crate::typed_absy::expression::{expression_types, expressions_model};
use crate::typed_absy::parameter::{Parameter, ParameterView};
use crate::typed_absy::program::{
    TypedFunction, TypedFunctionView, TypedStatement, TypedStatementView, parameters_view,
    statements_model,
};
use crate::typed_absy::types::{
    Type, TypeView, same_types, types_display, types_same, types_to_string, types_view,
};

verus! {

/// What checking the first `n` parameters of a function leaves behind: the
/// checker with the parameters that could be resolved in scope, those
/// parameters, and the errors of the others.
pub open spec fn checked_parameters(
    c: CheckerView,
    list: &Vec<ParameterNode>,
    n: nat,
    module: Seq<char>,
    types: TypesView,
) -> (CheckerView, Seq<ParameterView>, Seq<ErrorInnerView>)
    decreases n,
{
    if n == 0 || n > list.len() {
        (c, Seq::empty(), Seq::empty())
    } else {
        let before = checked_parameters(c, list, (n - 1) as nat, module, types);
        match resolved_parameter(&list[n - 1], module, types) {
            Ok(p) => (before.0.insert_into_scope(p.id), before.1.push(p), before.2),
            Err(e) => (before.0, before.1, before.2 + e),
        }
    }
}

/// What checking the statements of a function leaves behind.
pub struct BodyOutcome {
    /// The checker as it is afterwards.
    pub checker: CheckerView,
    /// The statements that are right, typed.
    pub statements: Seq<TypedStatementView>,
    /// What is wrong with the others, and with the returns.
    pub errors: Seq<ErrorInnerView>,
    /// Whether one of the statements is a `return`.
    pub found_return: bool,
}

/// The message for a `return` of other types than the function declares.
pub open spec fn return_mismatch(outputs: Seq<TypeView>, found: Seq<TypeView>) -> Seq<char> {
    "Expected ("@ + types_display(outputs) + ") in return statement, found ("@ + types_display(
        found,
    ) + ")"@
}

/// What a typed statement adds to the errors of a function: a `return` must
/// return values of the types that the function declares.
pub open spec fn return_errors(
    pos: (Position, Position),
    statement: TypedStatementView,
    outputs: Seq<TypeView>,
) -> Seq<ErrorInnerView> {
    match statement {
        TypedStatementView::Return(e) => if same_types(expression_types(e), outputs) {
            Seq::empty()
        } else {
            seq![error_at(pos, return_mismatch(outputs, expression_types(e)))]
        },
        _ => Seq::empty(),
    }
}

/// What checking the first `n` statements of a function leaves behind.
/// Unlike the statements of a loop, the statements of a function are all
/// checked, and what is wrong with any of them is kept.
pub open spec fn checked_body<T: Field>(
    c: CheckerView,
    list: &Vec<StatementNode>,
    n: nat,
    outputs: Seq<TypeView>,
    module: Seq<char>,
    types: TypesView,
) -> BodyOutcome
    decreases n,
{
    if n == 0 || n > list.len() {
        BodyOutcome { checker: c, statements: Seq::empty(), errors: Seq::empty(), found_return: false }
    } else {
        let before = checked_body::<T>(c, list, (n - 1) as nat, outputs, module, types);
        let stat = &list[n - 1];
        let pos = (stat.start, stat.end);
        let is_return = stat.value is Return;
        let second_return = if is_return && before.found_return {
            seq![error_at(pos, "Expected a single return statement"@)]
        } else {
            Seq::empty()
        };
        let outcome = checked_statement::<T>(before.checker, stat, module, types);
        BodyOutcome {
            checker: outcome.0,
            statements: match outcome.1 {
                Ok(statement) => before.statements.push(statement),
                Err(_) => before.statements,
            },
            errors: before.errors + second_return + match outcome.1 {
                Ok(statement) => return_errors(pos, statement, outputs),
                Err(e) => e,
            },
            found_return: before.found_return || is_return,
        }
    }
}

/// What checking a function leaves behind: the checker as it is
/// afterwards, and the typed function or the errors. Either way the scope
/// of the function has ended.
pub open spec fn checked_function<T: Field>(
    c: CheckerView,
    f: &FunctionNode,
    module: Seq<char>,
    types: TypesView,
) -> (CheckerView, Result<TypedFunctionView, Seq<ErrorInnerView>>) {
    let arguments = checked_parameters(
        c.enter_scope(),
        &f.value.arguments,
        f.value.arguments.len() as nat,
        module,
        types,
    );
    match resolved_signature(&f.value.signature, module, types) {
        Err(e) => (arguments.0.back_to(c.level), Err(arguments.2 + e)),
        Ok(s) => {
            let body = checked_body::<T>(
                arguments.0,
                &f.value.statements,
                f.value.statements.len() as nat,
                s.outputs,
                module,
                types,
            );
            let errors = arguments.2 + body.errors + if body.found_return {
                Seq::empty()
            } else {
                seq![error_at((f.start, f.end), "Expected a return statement"@)]
            };
            if errors.len() > 0 {
                (body.checker.back_to(c.level), Err(errors))
            } else {
                (
                    body.checker.exit_scope(),
                    Ok(
                        TypedFunctionView {
                            arguments: arguments.1,
                            statements: body.statements,
                            signature: s,
                        },
                    ),
                )
            }
        },
    }
}

/// Whether the function can be checked by a checker at the given level: it
/// has as many parameters as its signature has inputs, its statements are
/// as the parser makes statements, and it has no more loops than levels can
/// be counted.
pub open spec fn function_checkable(f: &FunctionNode, level: nat) -> bool {
    &&& f.value.arguments.len() == f.value.signature.inputs.len()
    &&& block_well_formed(&f.value.statements, f.value.statements.len() as nat)
    &&& level + 1 + block_loops(&f.value.statements, f.value.statements.len() as nat)
        <= usize::MAX
}

/// The types of the values that a `return` returns.
fn returned_types<T: Field>(statement: &TypedStatement<T>) -> (r: Option<Vec<Type>>)
    ensures
        r is Some <==> statement@ is Return,
        r matches Some(t) ==> types_view(t@) == expression_types(statement@->Return_0),
{
    match statement {
        TypedStatement::Return(e) => {
            let mut out: Vec<Type> = Vec::new();
            let mut i: usize = 0;
            while i < e.len()
                invariant
                    i <= e.len(),
                    out.len() == i,
                    forall|j: int| 0 <= j < i ==> out[j]@ == e[j]@.get_type(),
                decreases e.len() - i,
            {
                out.push(e[i].get_type());
                i += 1;
            }
            assert(types_view(out@) =~= expression_types(expressions_model(e)));
            Some(out)
        },
        _ => None,
    }
}

/// What a typed statement adds to the errors of a function.
fn check_return_types<T: Field>(
    pos: (Position, Position),
    statement: &TypedStatement<T>,
    outputs: &Vec<Type>,
    errors: &mut Vec<ErrorInner>,
)
    ensures
        inner_errors_view(final(errors)@) == inner_errors_view(old(errors)@) + return_errors(
            pos,
            statement@,
            types_view(outputs@),
        ),
{
    let ghost start = inner_errors_view(errors@);
    match returned_types(statement) {
        Some(found) => {
            if types_same(&found, outputs) {
                assert(start + Seq::<ErrorInnerView>::empty() =~= start);
            } else {
                let mut s = String::from_str("Expected (");
                s.append(types_to_string(outputs).as_str());
                s.append(") in return statement, found (");
                s.append(types_to_string(&found).as_str());
                s.append(")");
                let e = make_error(pos, s);
                push_error(errors, e);
                assert(start.push(e@) =~= start + seq![e@]);
            }
        },
        None => {
            assert(start + Seq::<ErrorInnerView>::empty() =~= start);
        },
    }
}

impl Checker {
    /// Checks the parameters of a function and puts them in scope; the
    /// errors of those that cannot be resolved go to `errors`.
    fn check_parameters(
        &mut self,
        list: Vec<ParameterNode>,
        module_id: &String,
        types: &TypeMap,
        errors: &mut Vec<ErrorInner>,
    ) -> (r: Vec<Parameter>)
        requires
            old(errors)@.len() == 0,
        ensures
            (final(self)@, parameters_view(r@), inner_errors_view(final(errors)@))
                == checked_parameters(old(self)@, &list, list.len() as nat, module_id@, types@),
            final(self).level == old(self).level,
    {
        let mut out: Vec<Parameter> = Vec::new();
        let ghost all = list;
        let ghost start = self@;
        assert(parameters_view(out@) =~= Seq::<ParameterView>::empty());
        assert(inner_errors_view(errors@) =~= Seq::<ErrorInnerView>::empty());
        for p in it: list
            invariant
                it.seq() == all@,
                self.level == old(self).level,
                (self@, parameters_view(out@), inner_errors_view(errors@)) == checked_parameters(
                    start,
                    &all,
                    it.index() as nat,
                    module_id@,
                    types@,
                ),
        {
            let ghost before = parameters_view(out@);
            assert(p == all[it.index() as int]);
            match self.check_parameter(p, module_id, types) {
                Ok(a) => {
                    self.insert_into_scope(a.id.clone());
                    out.push(a);
                    assert(parameters_view(out@) =~= before.push(a@));
                },
                Err(e) => {
                    extend_errors(errors, e);
                },
            }
        }
        out
    }

    /// Checks the statements of a function; what is wrong with them goes
    /// to `errors`. Returns whether one of them is a `return`.
    fn check_body<T: Field>(
        &mut self,
        list: Vec<StatementNode>,
        outputs: &Vec<Type>,
        module_id: &String,
        types: &TypeMap,
        errors: &mut Vec<ErrorInner>,
    ) -> (r: (Vec<TypedStatement<T>>, bool))
        requires
            structs_only(types@),
            block_well_formed(&list, list.len() as nat),
            old(self).level + block_loops(&list, list.len() as nat) <= usize::MAX,
        ensures
            checked_body::<T>(
                old(self)@,
                &list,
                list.len() as nat,
                types_view(outputs@),
                module_id@,
                types@,
            ) == (BodyOutcome {
                checker: final(self)@,
                statements: statements_model(&r.0),
                errors: checked_body::<T>(
                    old(self)@,
                    &list,
                    list.len() as nat,
                    types_view(outputs@),
                    module_id@,
                    types@,
                ).errors,
                found_return: r.1,
            }),
            inner_errors_view(final(errors)@) == inner_errors_view(old(errors)@) + checked_body::<
                T,
            >(old(self)@, &list, list.len() as nat, types_view(outputs@), module_id@, types@).errors,
            old(self).level <= final(self).level <= old(self).level + block_loops(
                &list,
                list.len() as nat,
            ),
    {
        let mut out: Vec<TypedStatement<T>> = Vec::new();
        let mut found_return = false;
        let ghost all = list;
        let ghost start = self@;
        let ghost first_errors = inner_errors_view(errors@);
        let ghost out_types = types_view(outputs@);
        assert(statements_model(&out) =~= Seq::<TypedStatementView>::empty());
        assert(first_errors + Seq::<ErrorInnerView>::empty() =~= first_errors);
        for stat in it: list
            invariant
                structs_only(types@),
                it.seq() == all@,
                out_types == types_view(outputs@),
                block_well_formed(&all, all.len() as nat),
                old(self).level + block_loops(&all, all.len() as nat) <= usize::MAX,
                old(self).level <= self.level <= old(self).level + block_loops(
                    &all,
                    it.index() as nat,
                ),
                checked_body::<T>(start, &all, it.index() as nat, out_types, module_id@, types@)
                    == (BodyOutcome {
                    checker: self@,
                    statements: statements_model(&out),
                    errors: checked_body::<T>(
                        start,
                        &all,
                        it.index() as nat,
                        out_types,
                        module_id@,
                        types@,
                    ).errors,
                    found_return,
                }),
                inner_errors_view(errors@) == first_errors + checked_body::<T>(
                    start,
                    &all,
                    it.index() as nat,
                    out_types,
                    module_id@,
                    types@,
                ).errors,
        {
            let ghost index = it.index() as nat;
            let ghost before = checked_body::<T>(start, &all, index, out_types, module_id@, types@);
            let ghost old_out = statements_model(&out);
            assert(stat == all[it.index() as int]);
            proof {
                lemma_block_loops_monotonic(&all, index, all.len() as nat);
                lemma_block_well_formed_prefix(&all, index, all.len() as nat);
                lemma_checkable(&all[index as int], self.level as nat);
            }
            let pos = stat.pos();
            let is_return = match &stat.value {
                Statement::Return(_) => true,
                _ => false,
            };
            let ghost errors0 = inner_errors_view(errors@);
            if is_return && found_return {
                let e = make_error(pos, String::from_str("Expected a single return statement"));
                push_error(errors, e);
                assert(errors0.push(e@) =~= errors0 + seq![e@]);
            } else {
                assert(errors0 + Seq::<ErrorInnerView>::empty() =~= errors0);
            }
            found_return = found_return || is_return;
            let ghost errors1 = inner_errors_view(errors@);
            match self.check_statement(stat, module_id, types) {
                Ok(statement) => {
                    check_return_types(pos, &statement, outputs, errors);
                    out.push(statement);
                    assert(statements_model(&out) =~= old_out.push(statement@));
                },
                Err(e) => {
                    extend_errors(errors, e);
                },
            }
            proof {
                let after = checked_body::<T>(
                    start,
                    &all,
                    (index + 1) as nat,
                    out_types,
                    module_id@,
                    types@,
                );
                let added = inner_errors_view(errors@);
                assert(added =~= first_errors + after.errors);
            }
        }
        (out, found_return)
    }

    /// Checks a function. The scope of the function ends with it, whether
    /// the function is right or wrong.
    pub fn check_function<T: Field>(
        &mut self,
        funct_node: FunctionNode,
        module_id: &String,
        types: &TypeMap,
    ) -> (r: Result<TypedFunction<T>, Vec<ErrorInner>>)
        requires
            structs_only(types@),
            function_checkable(&funct_node, old(self).level as nat),
        ensures
            (final(self)@, list_result_view(r)) == checked_function::<T>(
                old(self)@,
                &funct_node,
                module_id@,
                types@,
            ),
            final(self).level <= old(self).level + 1 + block_loops(
                &funct_node.value.statements,
                funct_node.value.statements.len() as nat,
            ),
    {
        let level = self.level;
        self.enter_scope();
        let pos = funct_node.pos();
        let funct = funct_node.value;
        let mut errors: Vec<ErrorInner> = Vec::new();
        let arguments_checked = self.check_parameters(
            funct.arguments,
            module_id,
            types,
            &mut errors,
        );
        let ghost argument_errors = inner_errors_view(errors@);
        match self.check_signature(funct.signature, module_id, types) {
            Ok(s) => {
                let (statements_checked, found_return) = self.check_body(
                    funct.statements,
                    &s.outputs,
                    module_id,
                    types,
                    &mut errors,
                );
                let ghost body_errors = inner_errors_view(errors@);
                if !found_return {
                    let e = make_error(pos, String::from_str("Expected a return statement"));
                    push_error(&mut errors, e);
                    assert(body_errors.push(e@) =~= body_errors + seq![e@]);
                } else {
                    assert(body_errors + Seq::<ErrorInnerView>::empty() =~= body_errors);
                }
                if errors.len() > 0 {
                    self.back_to(level);
                    return Err(errors);
                }
                self.exit_scope();
                Ok(
                    TypedFunction {
                        arguments: arguments_checked,
                        statements: statements_checked,
                        signature: s,
                    },
                )
            },
            Err(e) => {
                extend_errors(&mut errors, e);
                self.back_to(level);
                Err(errors)
            },
        }
    }
}

} // verus!
