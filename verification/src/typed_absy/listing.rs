//! Typed statements, functions, modules and programs as text.

use vstd::prelude::*;
use crate::field::Field;
use crate::text::{join, push_joined, repeat, repeated, str_eq};
use crate::typed_absy::display::{
    boolean_display, call_display, call_to_string, expression_display, expressions_display,
    expressions_to_string, field_display,
};
use crate::typed_absy::expression::{FieldElementExpression, FieldElementExpressionView};
use crate::typed_absy::parameter::{Parameter, ParameterView};
use crate::typed_absy::program::{
    TypedAssignee, TypedAssigneeView, TypedExpressionList, TypedExpressionListView, TypedFunction,
    TypedFunctionSymbol, TypedFunctionSymbolView, TypedFunctionView, TypedModule, TypedModuleView,
    TypedProgram, TypedProgramView, TypedStatement, TypedStatementView, assignees_view,
    statements_model,
};
use crate::typed_absy::types::{
    FunctionKey, FunctionKeyView, Type, TypeView, signature_display, type_display, types_display,
    types_to_string, types_view,
};
use crate::typed_absy::variable::{Variable, VariableView};

verus! {

/// The first line of a loop.
pub open spec fn loop_head(
    v: VariableView,
    from: FieldElementExpressionView,
    to: FieldElementExpressionView,
) -> Seq<char> {
    "for "@ + v.display() + " in "@ + field_display(from) + ".."@ + field_display(to) + " do\n"@
}

/// How each assignee of a list is written.
pub open spec fn assignees_display(list: Seq<TypedAssigneeView>) -> Seq<Seq<char>> {
    Seq::new(list.len(), |i: int| list[i].display())
}

/// How a call that returns several values is written.
pub open spec fn expression_list_display(es: TypedExpressionListView) -> Seq<char> {
    call_display(es.key.id, expressions_display(es.arguments))
}

/// The lines of the body of a loop that stands alone: each statement
/// behind two tabs.
pub open spec fn body_display(body: Seq<TypedStatementView>) -> Seq<Seq<char>>
    decreases body, 0nat,
{
    Seq::new(
        body.len(),
        |i: int|
            if 0 <= i < body.len() {
                "\t\t"@ + statement_display(body[i]) + "\n"@
            } else {
                Seq::empty()
            },
    )
}

/// How a statement is written when it stands alone.
pub open spec fn statement_display(s: TypedStatementView) -> Seq<char>
    decreases s, 1nat,
{
    match s {
        TypedStatementView::Return(es) => "return "@ + join(expressions_display(es), ", "@),
        TypedStatementView::Declaration(v) => v.display(),
        TypedStatementView::Definition(a, e) => a.display() + " = "@ + expression_display(e),
        TypedStatementView::Assertion(e) => "assert("@ + boolean_display(e) + ")"@,
        TypedStatementView::For(v, from, to, body) => loop_head(v, from, to) + join(
            body_display(body),
            ""@,
        ) + "\tendfor"@,
        TypedStatementView::MultipleDefinition(ids, rhs) => join(assignees_display(ids), ", "@)
            + " = "@ + expression_list_display(rhs),
    }
}

/// The lines of a block of statements in a function: each statement behind
/// `indent`, on a line of its own.
pub open spec fn block_display(body: Seq<TypedStatementView>, indent: Seq<char>) -> Seq<Seq<char>>
    decreases body, 0nat,
{
    Seq::new(
        body.len(),
        |i: int|
            if 0 <= i < body.len() {
                indented_display(body[i], indent) + "\n"@
            } else {
                Seq::empty()
            },
    )
}

/// How a statement is written in a function, behind `indent`: the body of a
/// loop stands one tab further in than the loop.
pub open spec fn indented_display(s: TypedStatementView, indent: Seq<char>) -> Seq<char>
    decreases s, 1nat,
{
    match s {
        TypedStatementView::For(v, from, to, body) => indent + loop_head(v, from, to) + join(
            block_display(body, indent + "\t"@),
            ""@,
        ) + indent + "endfor\n"@,
        _ => indent + statement_display(s),
    }
}

/// How the parameters of a function are written.
pub open spec fn parameters_display(list: Seq<ParameterView>) -> Seq<Seq<char>> {
    Seq::new(list.len(), |i: int| list[i].display())
}

/// How what a function returns is written behind its parameters: nothing
/// for no value, an arrow and the type for one, and the types alone for
/// several.
pub open spec fn outputs_display(outputs: Seq<TypeView>) -> Seq<char> {
    if outputs.len() == 0 {
        ""@
    } else if outputs.len() == 1 {
        " -> "@ + type_display(outputs[0])
    } else {
        types_display(outputs)
    }
}

/// How a function is written: its parameters and what it returns on the
/// first line, then its statements, each one tab in.
pub open spec fn function_display(f: TypedFunctionView) -> Seq<char> {
    "("@ + join(parameters_display(f.arguments), ", "@) + ")"@ + outputs_display(
        f.signature.outputs,
    ) + ":"@ + "\n"@ + join(block_display(f.statements, "\t"@), ""@)
}

/// How a symbol of a module is written under its key.
pub open spec fn symbol_display(key: FunctionKeyView, symbol: TypedFunctionSymbolView) -> Seq<char> {
    match symbol {
        TypedFunctionSymbolView::Here(f) => "def "@ + key.id + function_display(f),
        TypedFunctionSymbolView::There(k, module) => "import "@ + k.id + " from \""@ + module
            + "\" as "@ + key.id + " // with signature "@ + signature_display(key.signature),
        TypedFunctionSymbolView::Flat(e) => "def "@ + key.id + signature_display(e.signature)
            + ":\n\t// hidden"@,
    }
}

/// How each symbol of a module is written.
pub open spec fn symbols_display(list: Seq<(FunctionKeyView, TypedFunctionSymbolView)>) -> Seq<
    Seq<char>,
> {
    Seq::new(list.len(), |i: int| symbol_display(list[i].0, list[i].1))
}

/// How a module is written: its symbols, one after the other, each
/// starting a line.
pub open spec fn module_display(m: TypedModuleView) -> Seq<char> {
    join(symbols_display(m.functions), "\n"@)
}

/// The line that parts a module from what stands around it.
pub open spec fn rule() -> Seq<char> {
    repeated("-"@, 100)
}

/// How a module of a program is written: its name, marked if it is the
/// main module, and the module between two rules.
pub open spec fn module_block(id: Seq<char>, m: TypedModuleView, main: Seq<char>) -> Seq<char> {
    "| "@ + id + ": |"@ + (if id == main {
        "<---- main"@
    } else {
        ""@
    }) + "\n"@ + rule() + "\n"@ + module_display(m) + "\n"@ + rule() + "\n"@ + "\n"@
}

/// How each module of a program is written.
pub open spec fn modules_display(p: TypedProgramView) -> Seq<Seq<char>> {
    Seq::new(p.modules.len(), |i: int| module_block(p.modules[i].0, p.modules[i].1, p.main))
}

/// How a program is written: its modules, one after the other.
pub open spec fn program_display(p: TypedProgramView) -> Seq<char> {
    join(modules_display(p), ""@)
}

/// The first line of a loop.
fn loop_head_text<T: Field>(
    v: &Variable,
    from: &FieldElementExpression<T>,
    to: &FieldElementExpression<T>,
) -> (r: String)
    ensures
        r@ == loop_head(v@, from@, to@),
{
    let mut s = String::from_str("for ");
    s.append(v.to_string().as_str());
    s.append(" in ");
    s.append(from.to_string().as_str());
    s.append("..");
    s.append(to.to_string().as_str());
    s.append(" do\n");
    s
}

/// The assignees of a list, separated by commas.
fn assignees_to_string<T: Field>(list: &Vec<TypedAssignee<T>>) -> (r: String)
    ensures
        r@ == join(assignees_display(assignees_view(list@)), ", "@),
{
    let mut out = String::new();
    let mut i: usize = 0;
    let ghost items = assignees_display(assignees_view(list@));
    assert(items.take(0) =~= Seq::<Seq<char>>::empty());
    while i < list.len()
        invariant
            i <= list.len(),
            items == assignees_display(assignees_view(list@)),
            out@ == join(items.take(i as int), ", "@),
        decreases list.len() - i,
    {
        let item = list[i].to_string();
        proof {
            assert(items.take(i + 1).drop_last() =~= items.take(i as int));
        }
        push_joined(&mut out, i, ", ", item.as_str(), Ghost(items.take(i + 1)));
        i += 1;
    }
    assert(items.take(i as int) =~= items);
    out
}

/// The body of a loop that stands alone.
fn body_to_string<T: Field>(body: &Vec<TypedStatement<T>>) -> (r: String)
    ensures
        r@ == join(body_display(statements_model(body)), ""@),
    decreases body, 0nat,
{
    let mut out = String::new();
    let mut i: usize = 0;
    let ghost items = body_display(statements_model(body));
    assert(items.take(0) =~= Seq::<Seq<char>>::empty());
    while i < body.len()
        invariant
            i <= body.len(),
            items == body_display(statements_model(body)),
            out@ == join(items.take(i as int), ""@),
        decreases body.len() - i,
    {
        let mut item = String::from_str("\t\t");
        item.append(body[i].to_string().as_str());
        item.append("\n");
        proof {
            assert(items.take(i + 1).drop_last() =~= items.take(i as int));
        }
        push_joined(&mut out, i, "", item.as_str(), Ghost(items.take(i + 1)));
        i += 1;
    }
    assert(items.take(i as int) =~= items);
    out
}

/// A block of statements in a function, each behind `indent`.
fn block_to_string<T: Field>(body: &Vec<TypedStatement<T>>, indent: &str) -> (r: String)
    ensures
        r@ == join(block_display(statements_model(body), indent@), ""@),
    decreases body, 0nat,
{
    let mut out = String::new();
    let mut i: usize = 0;
    let ghost items = block_display(statements_model(body), indent@);
    assert(items.take(0) =~= Seq::<Seq<char>>::empty());
    while i < body.len()
        invariant
            i <= body.len(),
            items == block_display(statements_model(body), indent@),
            out@ == join(items.take(i as int), ""@),
        decreases body.len() - i,
    {
        let mut item = body[i].to_indented_string(indent);
        item.append("\n");
        proof {
            assert(items.take(i + 1).drop_last() =~= items.take(i as int));
        }
        push_joined(&mut out, i, "", item.as_str(), Ghost(items.take(i + 1)));
        i += 1;
    }
    assert(items.take(i as int) =~= items);
    out
}

impl<T: Field> TypedExpressionList<T> {
    /// The call as text.
    pub fn to_string(&self) -> (r: String)
        ensures
            r@ == expression_list_display(self@),
    {
        match self {
            TypedExpressionList::FunctionCall(key, arguments, _) => call_to_string(
                key.id.as_str(),
                arguments,
            ),
        }
    }
}

impl<T: Field> TypedStatement<T> {
    /// The statement as text, as it is written when it stands alone.
    pub fn to_string(&self) -> (r: String)
        ensures
            r@ == statement_display(self@),
        decreases self, 1nat,
    {
        match self {
            TypedStatement::Return(es) => {
                let mut s = String::from_str("return ");
                s.append(expressions_to_string(es).as_str());
                s
            },
            TypedStatement::Declaration(v) => v.to_string(),
            TypedStatement::Definition(a, e) => {
                let mut s = a.to_string();
                s.append(" = ");
                s.append(e.to_string().as_str());
                s
            },
            TypedStatement::Assertion(e) => {
                let mut s = String::from_str("assert(");
                s.append(e.to_string().as_str());
                s.append(")");
                s
            },
            TypedStatement::For(v, from, to, body) => {
                let mut s = loop_head_text(v, from, to);
                s.append(body_to_string(body).as_str());
                s.append("\tendfor");
                s
            },
            TypedStatement::MultipleDefinition(ids, rhs) => {
                let mut s = assignees_to_string(ids);
                s.append(" = ");
                s.append(rhs.to_string().as_str());
                s
            },
        }
    }

    /// The statement as text, as it is written in a function behind
    /// `indent`.
    pub fn to_indented_string(&self, indent: &str) -> (r: String)
        ensures
            r@ == indented_display(self@, indent@),
        decreases self, 1nat,
    {
        let mut s = String::from_str(indent);
        match self {
            TypedStatement::For(v, from, to, body) => {
                s.append(loop_head_text(v, from, to).as_str());
                let mut further = String::from_str(indent);
                further.append("\t");
                s.append(block_to_string(body, further.as_str()).as_str());
                s.append(indent);
                s.append("endfor\n");
            },
            other => {
                s.append(other.to_string().as_str());
            },
        }
        s
    }
}

/// The parameters of a function, separated by commas.
fn parameters_to_string(list: &Vec<Parameter>) -> (r: String)
    ensures
        r@ == join(parameters_display(crate::typed_absy::program::parameters_view(list@)), ", "@),
{
    let mut out = String::new();
    let mut i: usize = 0;
    let ghost items = parameters_display(crate::typed_absy::program::parameters_view(list@));
    assert(items.take(0) =~= Seq::<Seq<char>>::empty());
    while i < list.len()
        invariant
            i <= list.len(),
            items == parameters_display(crate::typed_absy::program::parameters_view(list@)),
            out@ == join(items.take(i as int), ", "@),
        decreases list.len() - i,
    {
        let item = list[i].to_string();
        proof {
            assert(items.take(i + 1).drop_last() =~= items.take(i as int));
        }
        push_joined(&mut out, i, ", ", item.as_str(), Ghost(items.take(i + 1)));
        i += 1;
    }
    assert(items.take(i as int) =~= items);
    out
}

/// What a function returns, as it is written behind its parameters.
fn outputs_to_string(outputs: &Vec<Type>) -> (r: String)
    ensures
        r@ == outputs_display(types_view(outputs@)),
{
    if outputs.len() == 0 {
        String::from_str("")
    } else if outputs.len() == 1 {
        let mut s = String::from_str(" -> ");
        s.append(outputs[0].to_string().as_str());
        s
    } else {
        types_to_string(outputs)
    }
}

impl<T: Field> TypedFunction<T> {
    /// The function as text.
    pub fn to_string(&self) -> (r: String)
        ensures
            r@ == function_display(self@),
    {
        let mut s = String::from_str("(");
        s.append(parameters_to_string(&self.arguments).as_str());
        s.append(")");
        s.append(outputs_to_string(&self.signature.outputs).as_str());
        s.append(":");
        s.append("\n");
        s.append(block_to_string(&self.statements, "\t").as_str());
        s
    }
}

/// A symbol of a module as text, under its key.
fn symbol_to_string<T: Field>(key: &FunctionKey, symbol: &TypedFunctionSymbol<T>) -> (r: String)
    ensures
        r@ == symbol_display(key@, symbol@),
{
    match symbol {
        TypedFunctionSymbol::Here(f) => {
            let mut s = String::from_str("def ");
            s.append(key.id.as_str());
            s.append(f.to_string().as_str());
            s
        },
        TypedFunctionSymbol::There(k, module) => {
            let mut s = String::from_str("import ");
            s.append(k.id.as_str());
            s.append(" from \"");
            s.append(module.as_str());
            s.append("\" as ");
            s.append(key.id.as_str());
            s.append(" // with signature ");
            s.append(key.signature.to_string().as_str());
            s
        },
        TypedFunctionSymbol::Flat(e) => {
            let mut s = String::from_str("def ");
            s.append(key.id.as_str());
            s.append(e.signature().to_string().as_str());
            s.append(":\n\t// hidden");
            s
        },
    }
}

impl<T: Field> TypedModule<T> {
    /// The module as text.
    pub fn to_string(&self) -> (r: String)
        ensures
            r@ == module_display(self@),
    {
        let mut out = String::new();
        let mut i: usize = 0;
        let ghost items = symbols_display(self@.functions);
        assert(items.take(0) =~= Seq::<Seq<char>>::empty());
        while i < self.functions.entries.len()
            invariant
                i <= self.functions.entries.len(),
                items == symbols_display(self@.functions),
                out@ == join(items.take(i as int), "\n"@),
            decreases self.functions.entries.len() - i,
        {
            let item = symbol_to_string(&self.functions.entries[i].0, &self.functions.entries[i].1);
            proof {
                assert(items.take(i + 1).drop_last() =~= items.take(i as int));
            }
            push_joined(&mut out, i, "\n", item.as_str(), Ghost(items.take(i + 1)));
            i += 1;
        }
        assert(items.take(i as int) =~= items);
        out
    }
}

/// A module of a program as text.
fn module_block_text<T: Field>(id: &str, m: &TypedModule<T>, main: &str) -> (r: String)
    ensures
        r@ == module_block(id@, m@, main@),
{
    let mut s = String::from_str("| ");
    s.append(id);
    s.append(": |");
    if str_eq(id, main) {
        s.append("<---- main");
    } else {
        s.append("");
    }
    s.append("\n");
    let line = repeat("-", 100);
    s.append(line.as_str());
    s.append("\n");
    s.append(m.to_string().as_str());
    s.append("\n");
    s.append(line.as_str());
    s.append("\n");
    s.append("\n");
    s
}

impl<T: Field> TypedProgram<T> {
    /// The program as text.
    pub fn to_string(&self) -> (r: String)
        ensures
            r@ == program_display(self@),
    {
        let mut out = String::new();
        let mut i: usize = 0;
        let ghost items = modules_display(self@);
        assert(items.take(0) =~= Seq::<Seq<char>>::empty());
        while i < self.modules.entries.len()
            invariant
                i <= self.modules.entries.len(),
                items == modules_display(self@),
                out@ == join(items.take(i as int), ""@),
            decreases self.modules.entries.len() - i,
        {
            let item = module_block_text(
                self.modules.entries[i].0.as_str(),
                &self.modules.entries[i].1,
                self.main.as_str(),
            );
            proof {
                assert(items.take(i + 1).drop_last() =~= items.take(i as int));
            }
            push_joined(&mut out, i, "", item.as_str(), Ghost(items.take(i + 1)));
            i += 1;
        }
        assert(items.take(i as int) =~= items);
        out
    }
}

} // verus!
