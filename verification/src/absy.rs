//! The untyped program: what the parser produces and semantic analysis
//! consumes.

pub mod node;
pub mod types;

use vstd::prelude::*;
use crate::absy::node::{Node, NodeValue};
use crate::absy::types::{UnresolvedSignature, UnresolvedTypeNode, UserTypeId};
use crate::collections::StringMap;
use crate::embed::FlatEmbed;
use crate::natural::{le_bytes_to_dec, le_value};
use crate::text::{bool_string, bool_to_string, dec_string, join, push_joined, u64_to_dec};
use crate::typed_absy::display::{
    call_display, if_else_display, if_else_text, infix_text, member_display, member_text,
    parenthesised, select_display, select_text,
};

verus! {

pub type Identifier = String;

pub type FunctionIdentifier = String;

/// What identifies a module.
pub type ModuleId = String;

/// The modules of a program that are still to be analysed, each under what
/// identifies it.
pub type Modules = StringMap<Module>;

pub type ExpressionNode = Node<Expression>;

pub type ExpressionListNode = Node<ExpressionList>;

pub type AssigneeNode = Node<Assignee>;

pub type StatementNode = Node<Statement>;

pub type SymbolDeclarationNode = Node<SymbolDeclaration>;

pub type StructDefinitionNode = Node<StructDefinition>;

pub type StructDefinitionFieldNode = Node<StructDefinitionField>;

pub type FunctionNode = Node<Function>;

pub type SymbolImportNode = Node<SymbolImport>;

pub type VariableNode = Node<Variable>;

pub type ParameterNode = Node<Parameter>;

pub type ImportNode = Node<Import>;

pub type SpreadNode = Node<Spread>;

pub type RangeNode = Node<Range>;

/// A program: its modules, and which of them is the main one.
#[derive(Debug, PartialEq)]
pub struct Program {
    pub modules: Modules,
    pub main: ModuleId,
}

/// A module: the symbols it declares, in source order, and the imports that
/// are still to be turned into symbols.
#[derive(Debug, PartialEq)]
pub struct Module {
    pub symbols: Vec<SymbolDeclarationNode>,
    pub imports: Vec<ImportNode>,
}

impl Module {
    pub fn with_symbols(symbols: Vec<SymbolDeclarationNode>) -> (r: Module)
        ensures
            r.symbols == symbols,
            r.imports@.len() == 0,
    {
        Module { symbols, imports: Vec::new() }
    }
}

/// An import as the source writes it.
#[derive(Debug, PartialEq)]
pub struct Import {
    pub source: String,
    pub symbol: Option<String>,
    pub alias: Option<String>,
}

/// The declaration of a symbol under a name.
#[derive(Debug, PartialEq)]
pub struct SymbolDeclaration {
    pub id: Identifier,
    pub symbol: Symbol,
}

/// What a name can be declared as.
#[derive(Debug, PartialEq)]
pub enum Symbol {
    HereType(StructDefinitionNode),
    HereFunction(FunctionNode),
    There(SymbolImportNode),
    Flat(FlatEmbed),
}

/// The import of a symbol of another module.
#[derive(Debug, PartialEq)]
pub struct SymbolImport {
    pub module_id: ModuleId,
    pub symbol_id: Identifier,
}

impl SymbolImport {
    pub fn with_id_in_module(symbol_id: &str, module_id: &str) -> (r: SymbolImport)
        ensures
            r.symbol_id@ == symbol_id@,
            r.module_id@ == module_id@,
    {
        SymbolImport {
            module_id: String::from_str(module_id),
            symbol_id: String::from_str(symbol_id),
        }
    }
}

/// The definition of a struct type.
#[derive(Debug, PartialEq)]
pub struct StructDefinition {
    pub fields: Vec<StructDefinitionFieldNode>,
}

/// A member of a struct definition.
#[derive(Debug, PartialEq)]
pub struct StructDefinitionField {
    pub id: Identifier,
    pub ty: UnresolvedTypeNode,
}

/// A function.
#[derive(Debug, PartialEq)]
pub struct Function {
    pub arguments: Vec<ParameterNode>,
    pub statements: Vec<StatementNode>,
    pub signature: UnresolvedSignature,
}

/// A variable and the type the source gives it.
#[derive(Debug, PartialEq)]
pub struct Variable {
    pub id: Identifier,
    pub _type: UnresolvedTypeNode,
}

impl Variable {
    pub fn new(id: &str, t: UnresolvedTypeNode) -> (r: Variable)
        ensures
            r.id@ == id@,
            r._type == t,
    {
        Variable { id: String::from_str(id), _type: t }
    }
}

/// A parameter of a function.
#[derive(Debug, PartialEq)]
pub struct Parameter {
    pub id: VariableNode,
    pub private: bool,
}

/// Something that can be assigned to.
#[derive(Debug, PartialEq)]
pub enum Assignee {
    Identifier(Identifier),
    Select(Box<AssigneeNode>, Box<RangeOrExpression>),
    Member(Box<AssigneeNode>, Box<Identifier>),
}

/// A statement.
#[derive(Debug, PartialEq)]
pub enum Statement {
    Return(ExpressionListNode),
    Declaration(VariableNode),
    Definition(AssigneeNode, ExpressionNode),
    Assertion(ExpressionNode),
    For(VariableNode, ExpressionNode, ExpressionNode, Vec<StatementNode>),
    MultipleDefinition(Vec<AssigneeNode>, ExpressionNode),
}

/// An element of an inline array: an expression, or an array spread out.
#[derive(Debug, PartialEq)]
pub enum SpreadOrExpression {
    Spread(SpreadNode),
    Expression(ExpressionNode),
}

/// An array spread out into its elements.
#[derive(Debug, PartialEq)]
pub struct Spread {
    pub expression: ExpressionNode,
}

/// What stands between the brackets of a selection: an index, or a range.
#[derive(Debug, PartialEq)]
pub enum RangeOrExpression {
    Range(RangeNode),
    Expression(ExpressionNode),
}

/// A range of indices; a bound that is left out stands for the end of the
/// array on that side.
#[derive(Debug, PartialEq)]
pub struct Range {
    pub from: Option<ExpressionNode>,
    pub to: Option<ExpressionNode>,
}

/// A list of expressions.
#[derive(Debug, PartialEq)]
pub struct ExpressionList {
    pub expressions: Vec<ExpressionNode>,
}

/// An expression. A field constant is given by the little-endian bytes of
/// the number the source wrote.
#[derive(Debug, PartialEq)]
pub enum Expression {
    FieldConstant(Vec<u8>),
    BooleanConstant(bool),
    U8Constant(u8),
    U16Constant(u16),
    U32Constant(u32),
    Identifier(Identifier),
    Add(Box<ExpressionNode>, Box<ExpressionNode>),
    Sub(Box<ExpressionNode>, Box<ExpressionNode>),
    Mult(Box<ExpressionNode>, Box<ExpressionNode>),
    Div(Box<ExpressionNode>, Box<ExpressionNode>),
    Rem(Box<ExpressionNode>, Box<ExpressionNode>),
    Pow(Box<ExpressionNode>, Box<ExpressionNode>),
    IfElse(Box<ExpressionNode>, Box<ExpressionNode>, Box<ExpressionNode>),
    FunctionCall(FunctionIdentifier, Vec<ExpressionNode>),
    Lt(Box<ExpressionNode>, Box<ExpressionNode>),
    Le(Box<ExpressionNode>, Box<ExpressionNode>),
    Eq(Box<ExpressionNode>, Box<ExpressionNode>),
    Ge(Box<ExpressionNode>, Box<ExpressionNode>),
    Gt(Box<ExpressionNode>, Box<ExpressionNode>),
    And(Box<ExpressionNode>, Box<ExpressionNode>),
    Not(Box<ExpressionNode>),
    InlineArray(Vec<SpreadOrExpression>),
    InlineStruct(UserTypeId, Vec<(Identifier, ExpressionNode)>),
    Select(Box<ExpressionNode>, Box<RangeOrExpression>),
    Member(Box<ExpressionNode>, Box<Identifier>),
    Or(Box<ExpressionNode>, Box<ExpressionNode>),
    BitXor(Box<ExpressionNode>, Box<ExpressionNode>),
    BitAnd(Box<ExpressionNode>, Box<ExpressionNode>),
    BitOr(Box<ExpressionNode>, Box<ExpressionNode>),
    LeftShift(Box<ExpressionNode>, Box<ExpressionNode>),
    RightShift(Box<ExpressionNode>, Box<ExpressionNode>),
}

impl NodeValue for Expression {

}

impl NodeValue for ExpressionList {

}

impl NodeValue for Assignee {

}

impl NodeValue for Statement {

}

impl NodeValue for SymbolDeclaration {

}

impl NodeValue for StructDefinition {

}

impl NodeValue for StructDefinitionField {

}

impl NodeValue for Function {

}

impl NodeValue for Module {

}

impl NodeValue for SymbolImport {

}

impl NodeValue for Variable {

}

impl NodeValue for Parameter {

}

impl NodeValue for Import {

}

impl NodeValue for Spread {

}

impl NodeValue for Range {

}

/// How each expression of a list is written.
pub open spec fn expression_texts(list: &Vec<ExpressionNode>) -> Seq<Seq<char>>
    decreases list,
{
    Seq::new(
        list.len() as nat,
        |i: int|
            if 0 <= i < list.len() {
                list[i].value.display()
            } else {
                Seq::empty()
            },
    )
}

/// How each element of an inline array is written.
pub open spec fn element_texts(list: &Vec<SpreadOrExpression>) -> Seq<Seq<char>>
    decreases list,
{
    Seq::new(
        list.len() as nat,
        |i: int|
            if 0 <= i < list.len() {
                list[i].display()
            } else {
                Seq::empty()
            },
    )
}

/// How each member of an inline struct is written.
pub open spec fn member_texts(list: &Vec<(Identifier, ExpressionNode)>) -> Seq<Seq<char>>
    decreases list,
{
    Seq::new(
        list.len() as nat,
        |i: int|
            if 0 <= i < list.len() {
                list[i].0@ + ": "@ + list[i].1.value.display()
            } else {
                Seq::empty()
            },
    )
}

impl SpreadOrExpression {
    /// How the element is written.
    pub open spec fn display(&self) -> Seq<char>
        decreases self,
    {
        match self {
            SpreadOrExpression::Spread(s) => "..."@ + s.value.expression.value.display(),
            SpreadOrExpression::Expression(e) => e.value.display(),
        }
    }

    pub fn to_string(&self) -> (r: String)
        ensures
            r@ == self.display(),
        decreases self,
    {
        match self {
            SpreadOrExpression::Spread(s) => {
                let mut out = String::from_str("...");
                out.append(s.value.expression.value.to_string().as_str());
                out
            },
            SpreadOrExpression::Expression(e) => e.value.to_string(),
        }
    }
}

impl Range {
    /// How the range is written: the bounds that are there, with two dots
    /// between them.
    pub open spec fn display(&self) -> Seq<char>
        decreases self,
    {
        (match self.from {
            Some(e) => e.value.display(),
            None => Seq::empty(),
        }) + ".."@ + (match self.to {
            Some(e) => e.value.display(),
            None => Seq::empty(),
        })
    }

    pub fn to_string(&self) -> (r: String)
        ensures
            r@ == self.display(),
        decreases self,
    {
        let mut out = match &self.from {
            Some(e) => e.value.to_string(),
            None => String::new(),
        };
        out.append("..");
        let to = match &self.to {
            Some(e) => e.value.to_string(),
            None => String::new(),
        };
        out.append(to.as_str());
        out
    }
}

impl RangeOrExpression {
    /// How the index or range is written.
    pub open spec fn display(&self) -> Seq<char>
        decreases self,
    {
        match self {
            RangeOrExpression::Range(r) => r.value.display(),
            RangeOrExpression::Expression(e) => e.value.display(),
        }
    }

    pub fn to_string(&self) -> (r: String)
        ensures
            r@ == self.display(),
        decreases self,
    {
        match self {
            RangeOrExpression::Range(r) => r.value.to_string(),
            RangeOrExpression::Expression(e) => e.value.to_string(),
        }
    }
}

impl Expression {
    /// How the expression is written.
    pub open spec fn display(&self) -> Seq<char>
        decreases self,
    {
        match self {
            Expression::FieldConstant(n) => dec_string(le_value(n@)),
            Expression::BooleanConstant(b) => bool_string(*b),
            Expression::U8Constant(n) => dec_string(*n as nat),
            Expression::U16Constant(n) => dec_string(*n as nat),
            Expression::U32Constant(n) => dec_string(*n as nat),
            Expression::Identifier(name) => name@,
            Expression::Add(a, b) => parenthesised(a.value.display(), " + "@, b.value.display()),
            Expression::Sub(a, b) => parenthesised(a.value.display(), " - "@, b.value.display()),
            Expression::Mult(a, b) => parenthesised(a.value.display(), " * "@, b.value.display()),
            Expression::Div(a, b) => parenthesised(a.value.display(), " / "@, b.value.display()),
            Expression::Rem(a, b) => parenthesised(a.value.display(), " % "@, b.value.display()),
            Expression::Pow(a, b) => a.value.display() + "**"@ + b.value.display(),
            Expression::IfElse(c, a, b) => if_else_display(
                c.value.display(),
                a.value.display(),
                b.value.display(),
            ),
            Expression::FunctionCall(name, args) => call_display(name@, expression_texts(args)),
            Expression::Lt(a, b) => a.value.display() + " < "@ + b.value.display(),
            Expression::Le(a, b) => a.value.display() + " <= "@ + b.value.display(),
            Expression::Eq(a, b) => a.value.display() + " == "@ + b.value.display(),
            Expression::Ge(a, b) => a.value.display() + " >= "@ + b.value.display(),
            Expression::Gt(a, b) => a.value.display() + " > "@ + b.value.display(),
            Expression::And(a, b) => a.value.display() + " && "@ + b.value.display(),
            Expression::Not(a) => "!"@ + a.value.display(),
            Expression::InlineArray(elements) => "["@ + join(element_texts(elements), ", "@)
                + "]"@,
            Expression::InlineStruct(name, members) => name@ + " {"@ + join(
                member_texts(members),
                ", "@,
            ) + "}"@,
            Expression::Select(a, i) => select_display(a.value.display(), i.display()),
            Expression::Member(s, m) => member_display(s.value.display(), m@),
            Expression::Or(a, b) => a.value.display() + " || "@ + b.value.display(),
            Expression::BitXor(a, b) => parenthesised(
                a.value.display(),
                " ^ "@,
                b.value.display(),
            ),
            Expression::BitAnd(a, b) => parenthesised(
                a.value.display(),
                " & "@,
                b.value.display(),
            ),
            Expression::BitOr(a, b) => parenthesised(a.value.display(), " | "@, b.value.display()),
            Expression::LeftShift(a, b) => parenthesised(
                a.value.display(),
                " << "@,
                b.value.display(),
            ),
            Expression::RightShift(a, b) => parenthesised(
                a.value.display(),
                " >> "@,
                b.value.display(),
            ),
        }
    }

    fn binary_text(left: String, symbol: &str, right: String, parentheses: bool) -> (r: String)
        ensures
            r@ == if parentheses {
                parenthesised(left@, symbol@, right@)
            } else {
                left@ + symbol@ + right@
            },
    {
        proof {
            reveal_strlit("");
        }
        let r = if parentheses {
            infix_text("(", left.as_str(), symbol, right.as_str(), ")")
        } else {
            infix_text("", left.as_str(), symbol, right.as_str(), "")
        };
        proof {
            if !parentheses {
                assert(r@ =~= left@ + symbol@ + right@);
            }
        }
        r
    }

    /// The expression as text.
    pub fn to_string(&self) -> (r: String)
        ensures
            r@ == self.display(),
        decreases self,
    {
        match self {
            Expression::FieldConstant(n) => le_bytes_to_dec(n),
            Expression::BooleanConstant(b) => bool_to_string(*b),
            Expression::U8Constant(n) => u64_to_dec(*n as u64),
            Expression::U16Constant(n) => u64_to_dec(*n as u64),
            Expression::U32Constant(n) => u64_to_dec(*n as u64),
            Expression::Identifier(name) => name.clone(),
            Expression::Add(a, b) => Self::binary_text(
                a.value.to_string(),
                " + ",
                b.value.to_string(),
                true,
            ),
            Expression::Sub(a, b) => Self::binary_text(
                a.value.to_string(),
                " - ",
                b.value.to_string(),
                true,
            ),
            Expression::Mult(a, b) => Self::binary_text(
                a.value.to_string(),
                " * ",
                b.value.to_string(),
                true,
            ),
            Expression::Div(a, b) => Self::binary_text(
                a.value.to_string(),
                " / ",
                b.value.to_string(),
                true,
            ),
            Expression::Rem(a, b) => Self::binary_text(
                a.value.to_string(),
                " % ",
                b.value.to_string(),
                true,
            ),
            Expression::Pow(a, b) => Self::binary_text(
                a.value.to_string(),
                "**",
                b.value.to_string(),
                false,
            ),
            Expression::IfElse(c, a, b) => if_else_text(
                c.value.to_string().as_str(),
                a.value.to_string().as_str(),
                b.value.to_string().as_str(),
            ),
            Expression::FunctionCall(name, args) => {
                let mut list = String::new();
                let mut i: usize = 0;
                let ghost items = expression_texts(args);
                assert(items.take(0) =~= Seq::<Seq<char>>::empty());
                while i < args.len()
                    invariant
                        i <= args.len(),
                        *self is FunctionCall,
                        self->FunctionCall_1 == *args,
                        items == expression_texts(args),
                        list@ == join(items.take(i as int), ", "@),
                    decreases args.len() - i,
                {
                    assert(decreases_to!(*self => self->FunctionCall_1));
                    assert(decreases_to!(*args => args[i as int]));
                    assert(decreases_to!(args[i as int] => args[i as int].value));
                    let item = args[i].value.to_string();
                    proof {
                        assert(items.take(i + 1).drop_last() =~= items.take(i as int));
                    }
                    push_joined(&mut list, i, ", ", item.as_str(), Ghost(items.take(i + 1)));
                    i += 1;
                }
                assert(items.take(i as int) =~= items);
                let mut s = name.clone();
                s.append("(");
                s.append(list.as_str());
                s.append(")");
                s
            },
            Expression::Lt(a, b) => Self::binary_text(
                a.value.to_string(),
                " < ",
                b.value.to_string(),
                false,
            ),
            Expression::Le(a, b) => Self::binary_text(
                a.value.to_string(),
                " <= ",
                b.value.to_string(),
                false,
            ),
            Expression::Eq(a, b) => Self::binary_text(
                a.value.to_string(),
                " == ",
                b.value.to_string(),
                false,
            ),
            Expression::Ge(a, b) => Self::binary_text(
                a.value.to_string(),
                " >= ",
                b.value.to_string(),
                false,
            ),
            Expression::Gt(a, b) => Self::binary_text(
                a.value.to_string(),
                " > ",
                b.value.to_string(),
                false,
            ),
            Expression::And(a, b) => Self::binary_text(
                a.value.to_string(),
                " && ",
                b.value.to_string(),
                false,
            ),
            Expression::Not(a) => {
                let mut s = String::from_str("!");
                s.append(a.value.to_string().as_str());
                s
            },
            Expression::InlineArray(elements) => {
                let mut list = String::new();
                let mut i: usize = 0;
                let ghost items = element_texts(elements);
                assert(items.take(0) =~= Seq::<Seq<char>>::empty());
                while i < elements.len()
                    invariant
                        i <= elements.len(),
                        *self is InlineArray,
                        self->InlineArray_0 == *elements,
                        items == element_texts(elements),
                        list@ == join(items.take(i as int), ", "@),
                    decreases elements.len() - i,
                {
                    assert(decreases_to!(*self => self->InlineArray_0));
                    assert(decreases_to!(*elements => elements[i as int]));
                    let item = elements[i].to_string();
                    proof {
                        assert(items.take(i + 1).drop_last() =~= items.take(i as int));
                    }
                    push_joined(&mut list, i, ", ", item.as_str(), Ghost(items.take(i + 1)));
                    i += 1;
                }
                assert(items.take(i as int) =~= items);
                let mut s = String::from_str("[");
                s.append(list.as_str());
                s.append("]");
                s
            },
            Expression::InlineStruct(name, members) => {
                let mut list = String::new();
                let mut i: usize = 0;
                let ghost items = member_texts(members);
                assert(items.take(0) =~= Seq::<Seq<char>>::empty());
                while i < members.len()
                    invariant
                        i <= members.len(),
                        *self is InlineStruct,
                        self->InlineStruct_1 == *members,
                        items == member_texts(members),
                        list@ == join(items.take(i as int), ", "@),
                    decreases members.len() - i,
                {
                    assert(decreases_to!(*self => self->InlineStruct_1));
                    assert(decreases_to!(*members => members[i as int]));
                    assert(decreases_to!(members[i as int] => members[i as int].1));
                    assert(decreases_to!(members[i as int].1 => members[i as int].1.value));
                    let mut item = members[i].0.clone();
                    item.append(": ");
                    item.append(members[i].1.value.to_string().as_str());
                    proof {
                        assert(items.take(i + 1).drop_last() =~= items.take(i as int));
                    }
                    push_joined(&mut list, i, ", ", item.as_str(), Ghost(items.take(i + 1)));
                    i += 1;
                }
                assert(items.take(i as int) =~= items);
                let mut s = name.clone();
                s.append(" {");
                s.append(list.as_str());
                s.append("}");
                s
            },
            Expression::Select(a, i) => select_text(
                a.value.to_string().as_str(),
                i.to_string().as_str(),
            ),
            Expression::Member(s, m) => member_text(s.value.to_string().as_str(), m.as_str()),
            Expression::Or(a, b) => Self::binary_text(
                a.value.to_string(),
                " || ",
                b.value.to_string(),
                false,
            ),
            Expression::BitXor(a, b) => Self::binary_text(
                a.value.to_string(),
                " ^ ",
                b.value.to_string(),
                true,
            ),
            Expression::BitAnd(a, b) => Self::binary_text(
                a.value.to_string(),
                " & ",
                b.value.to_string(),
                true,
            ),
            Expression::BitOr(a, b) => Self::binary_text(
                a.value.to_string(),
                " | ",
                b.value.to_string(),
                true,
            ),
            Expression::LeftShift(a, b) => Self::binary_text(
                a.value.to_string(),
                " << ",
                b.value.to_string(),
                true,
            ),
            Expression::RightShift(a, b) => Self::binary_text(
                a.value.to_string(),
                " >> ",
                b.value.to_string(),
                true,
            ),
        }
    }
}

} // verus!
