use num_bigint::BigUint;
use zokrates_core::absy::node::NodeValue;
use zokrates_core::absy::types::{UnresolvedSignature, UnresolvedType};
use zokrates_core::absy::{
    Assignee, Expression, ExpressionList, ExpressionNode, Function, Module, Modules, Parameter,
    Program, Range, RangeOrExpression, Spread, SpreadOrExpression, Statement, Symbol,
    SymbolDeclaration, Variable,
};
use zokrates_core::collections::StringMap;
use zokrates_core::field::bn128::Bn128Field;
use zokrates_core::semantics::scope::{Checker, ScopedVariable};
use zokrates_core::semantics::TypeMap;
use zokrates_core::typed_absy::expression::{
    ArrayExpressionInner, FieldElementExpression, TypedExpression,
};
use zokrates_core::typed_absy::identifier::Identifier;
use zokrates_core::typed_absy::program::{TypedFunctionSymbol, TypedStatement};
use zokrates_core::typed_absy::types::{FunctionKey, Signature, Type, UBitwidth};
use zokrates_core::typed_absy::variable::Variable as TypedVariable;

fn number(n: u32) -> ExpressionNode {
    Expression::FieldConstant(BigUint::from(n).to_bytes_le()).mock()
}

fn name(id: &str) -> ExpressionNode {
    Expression::Identifier(id.into()).mock()
}

fn modules(list: Vec<(&str, Module)>) -> Modules {
    let mut modules: Modules = StringMap::new();
    for (id, module) in list {
        modules.insert(id.to_string(), module);
    }
    modules
}

/// a checker that knows `a: field[4]`, `i: field`, `b: bool`, `u: u8`, `w: u16`
fn checker() -> Checker {
    let mut checker = Checker::new();
    checker.insert_into_scope(TypedVariable::field_array("a", 4));
    checker.insert_into_scope(TypedVariable::field_element("i"));
    checker.insert_into_scope(TypedVariable::boolean("b"));
    checker.insert_into_scope(TypedVariable::with_id_and_type(
        Identifier::from("u"),
        Type::Uint(UBitwidth::B8),
    ));
    checker.insert_into_scope(TypedVariable::with_id_and_type(
        Identifier::from("w"),
        Type::Uint(UBitwidth::B16),
    ));
    checker
}

fn check(e: ExpressionNode) -> Result<TypedExpression<Bn128Field>, String> {
    let types: TypeMap = StringMap::new();
    checker()
        .check_expression::<Bn128Field>(e, &"".into(), &types)
        .map_err(|e| e.message)
}

fn slice(from: Option<ExpressionNode>, to: Option<ExpressionNode>) -> ExpressionNode {
    Expression::Select(
        Box::new(name("a")),
        Box::new(RangeOrExpression::Range(Range { from, to }.mock())),
    )
    .mock()
}

fn element(k: i32) -> TypedExpression<Bn128Field> {
    TypedExpression::FieldElement(FieldElementExpression::Select(
        Box::new(ArrayExpressionInner::Identifier(Identifier::from("a")).annotate(Type::FieldElement, 4)),
        Box::new(FieldElementExpression::Number(Bn128Field::from(k))),
    ))
}

#[test]
fn range_slice() {
    // a[1..3] is the inline array [a[1], a[2]]
    assert_eq!(
        check(slice(Some(number(1)), Some(number(3)))),
        Ok(TypedExpression::Array(
            ArrayExpressionInner::Value(vec![element(1), element(2)]).annotate(Type::FieldElement, 2)
        ))
    );
    // a bound that is left out stands for the end of the array on that side
    assert_eq!(
        check(slice(None, None)),
        Ok(TypedExpression::Array(
            ArrayExpressionInner::Value(vec![element(0), element(1), element(2), element(3)])
                .annotate(Type::FieldElement, 4)
        ))
    );
    assert_eq!(
        check(slice(Some(number(3)), Some(number(1)))),
        Err("Lower range bound 3 is larger than higher range bound 1".to_string())
    );
    assert_eq!(
        check(slice(Some(number(5)), None)),
        Err("Lower range bound 5 is out of array bounds [0, 4]".to_string())
    );
    assert_eq!(
        check(slice(None, Some(number(5)))),
        Err("Higher range bound 5 is out of array bounds [0, 4]".to_string())
    );
    assert_eq!(
        check(slice(Some(name("i")), None)),
        Err("Expected the lower bound of the range to be a constant field, found i".to_string())
    );
    assert_eq!(
        check(slice(None, Some(name("i")))),
        Err("Expected the higher bound of the range to be a constant field, found i".to_string())
    );
    // a bound beyond every array
    let huge = Expression::FieldConstant(
        BigUint::parse_bytes(b"340282366920938463463374607431768211456", 10)
            .unwrap()
            .to_bytes_le(),
    )
    .mock();
    assert_eq!(
        check(slice(Some(huge), None)),
        Err(
            "Lower range bound 340282366920938463463374607431768211456 is out of array bounds [0, 4]"
                .to_string()
        )
    );
}

#[test]
fn slice_of_what_is_no_array() {
    let e = Expression::Select(
        Box::new(name("i")),
        Box::new(RangeOrExpression::Range(
            Range {
                from: None,
                to: None,
            }
            .mock(),
        )),
    )
    .mock();
    assert_eq!(
        check(e),
        Err("Cannot access slice of expression i of type field".to_string())
    );
}

#[test]
fn select_rules() {
    let read = Expression::Select(
        Box::new(name("a")),
        Box::new(RangeOrExpression::Expression(name("i"))),
    )
    .mock();
    assert_eq!(
        check(read),
        Ok(TypedExpression::FieldElement(FieldElementExpression::Select(
            Box::new(
                ArrayExpressionInner::Identifier(Identifier::from("a"))
                    .annotate(Type::FieldElement, 4)
            ),
            Box::new(FieldElementExpression::Identifier(Identifier::from("i"))),
        )))
    );
    let bad_index = Expression::Select(
        Box::new(name("a")),
        Box::new(RangeOrExpression::Expression(name("b"))),
    )
    .mock();
    assert_eq!(
        check(bad_index),
        Err("Cannot access element b on expression of type field[4]".to_string())
    );
    let no_array = Expression::Select(
        Box::new(name("i")),
        Box::new(RangeOrExpression::Expression(number(0))),
    )
    .mock();
    assert_eq!(
        check(no_array),
        Err("Cannot access element 0 on expression of type field".to_string())
    );
}

#[test]
fn spread_rules() {
    // [...a, 7] has the four elements of a and one more
    let e = Expression::InlineArray(vec![
        SpreadOrExpression::Spread(Spread { expression: name("a") }.mock()),
        SpreadOrExpression::Expression(number(7)),
    ])
    .mock();
    assert_eq!(
        check(e),
        Ok(TypedExpression::Array(
            ArrayExpressionInner::Value(vec![
                element(0),
                element(1),
                element(2),
                element(3),
                TypedExpression::FieldElement(FieldElementExpression::Number(Bn128Field::from(7)))
            ])
            .annotate(Type::FieldElement, 5)
        ))
    );
    let e = Expression::InlineArray(vec![SpreadOrExpression::Spread(
        Spread { expression: name("i") }.mock(),
    )])
    .mock();
    assert_eq!(
        check(e),
        Err("Expected spread operator to apply on array, found field".to_string())
    );
    assert_eq!(
        check(Expression::InlineArray(vec![]).mock()),
        Err("Inline array cannot be empty".to_string())
    );
    let e = Expression::InlineArray(vec![
        SpreadOrExpression::Expression(number(3)),
        SpreadOrExpression::Expression(Expression::BooleanConstant(true).mock()),
    ])
    .mock();
    assert_eq!(
        check(e),
        Err("Expected true to have type field, but type is bool".to_string())
    );
}

#[test]
fn operator_rules() {
    let add = |x, y| Expression::Add(Box::new(x), Box::new(y)).mock();
    assert_eq!(
        check(add(name("i"), name("b"))),
        Err("Cannot apply `+` to field, bool".to_string())
    );
    assert_eq!(
        check(add(name("u"), name("w"))),
        Err("Cannot apply `+` to u8, u16".to_string())
    );
    assert_eq!(
        check(Expression::Sub(Box::new(name("i")), Box::new(name("b"))).mock()),
        Err("Expected only field elements, found field, bool".to_string())
    );
    assert_eq!(
        check(Expression::Mult(Box::new(name("b")), Box::new(name("b"))).mock()),
        Err("Cannot apply `*` to bool, bool".to_string())
    );
    assert_eq!(
        check(Expression::Div(Box::new(name("b")), Box::new(name("i"))).mock()),
        Err("Cannot apply `/` to bool, field".to_string())
    );
    assert_eq!(
        check(Expression::Rem(Box::new(name("i")), Box::new(name("i"))).mock()),
        Err("Cannot apply `%` to field, field".to_string())
    );
    assert_eq!(
        check(Expression::Pow(Box::new(name("u")), Box::new(name("i"))).mock()),
        Err("Expected only field elements, found u8, field".to_string())
    );
    assert_eq!(
        check(Expression::Lt(Box::new(name("i")), Box::new(name("b"))).mock()),
        Err("Cannot compare i of type field to b of type bool".to_string())
    );
    assert_eq!(
        check(Expression::Eq(Box::new(name("u")), Box::new(name("w"))).mock()),
        Err("Cannot compare u of type u8 to w of type u16".to_string())
    );
    assert_eq!(
        check(Expression::And(Box::new(name("i")), Box::new(name("b"))).mock()),
        Err("cannot apply boolean operators to field and bool".to_string())
    );
    assert_eq!(
        check(Expression::Or(Box::new(name("i")), Box::new(name("b"))).mock()),
        Err("cannot compare field to bool".to_string())
    );
    assert_eq!(
        check(Expression::LeftShift(Box::new(name("i")), Box::new(name("i"))).mock()),
        Err("cannot left-shift field by field".to_string())
    );
    assert_eq!(
        check(Expression::RightShift(Box::new(name("u")), Box::new(name("u"))).mock()),
        Err("cannot right-shift u8 by u8".to_string())
    );
    assert_eq!(
        check(Expression::BitXor(Box::new(name("u")), Box::new(name("w"))).mock()),
        Err("Cannot apply `^` to u8, u16".to_string())
    );
    assert_eq!(
        check(Expression::BitAnd(Box::new(name("u")), Box::new(name("i"))).mock()),
        Err("Cannot apply `&` to u8, field".to_string())
    );
    assert_eq!(
        check(Expression::BitOr(Box::new(name("b")), Box::new(name("i"))).mock()),
        Err("Cannot apply `|` to bool, field".to_string())
    );
    assert_eq!(
        check(Expression::Not(Box::new(name("i"))).mock()),
        Err("cannot negate field".to_string())
    );
    assert_eq!(
        check(
            Expression::IfElse(
                Box::new(name("i")),
                Box::new(name("i")),
                Box::new(name("i"))
            )
            .mock()
        ),
        Err("{condition} after `if` should be a boolean, found field".to_string())
    );
    assert_eq!(
        check(
            Expression::IfElse(
                Box::new(name("b")),
                Box::new(name("i")),
                Box::new(name("u"))
            )
            .mock()
        ),
        Err(
            "{consequence} and {alternative} in `if/else` expression should have the same type, found field, u8"
                .to_string()
        )
    );
    assert_eq!(
        check(Expression::Member(Box::new(name("i")), Box::new("x".into())).mock()),
        Err("Cannot access member x on expression of type field".to_string())
    );
}

#[test]
fn typed_expressions_as_text() {
    let shown = |e: ExpressionNode| check(e).unwrap().to_string();
    assert_eq!(
        shown(Expression::Add(Box::new(name("i")), Box::new(number(3))).mock()),
        "(i + 3)"
    );
    assert_eq!(
        shown(Expression::Pow(Box::new(name("i")), Box::new(number(2))).mock()),
        "i**2"
    );
    assert_eq!(
        shown(
            Expression::IfElse(
                Box::new(Expression::Lt(Box::new(name("i")), Box::new(number(3))).mock()),
                Box::new(Expression::Not(Box::new(name("b"))).mock()),
                Box::new(Expression::BooleanConstant(false).mock())
            )
            .mock()
        ),
        "if i < 3 then !b else false fi"
    );
    assert_eq!(
        shown(
            Expression::BitXor(
                Box::new(name("u")),
                Box::new(Expression::U8Constant(255).mock())
            )
            .mock()
        ),
        "(u ^ 0xff)"
    );
    assert_eq!(
        shown(
            Expression::LeftShift(Box::new(name("w")), Box::new(number(4))).mock()
        ),
        "(w << 4)"
    );
    assert_eq!(shown(slice(Some(number(1)), Some(number(3)))), "[a[1], a[2]]");
}

fn returning(expressions: Vec<ExpressionNode>) -> zokrates_core::absy::StatementNode {
    Statement::Return(ExpressionList { expressions }.mock()).mock()
}

#[test]
fn overload_resolution() {
    // def foo() -> field: return 1
    // def foo(field x) -> field: return x
    // def main() -> field: return foo(7) + foo()
    let foo0 = Function {
        arguments: vec![],
        statements: vec![returning(vec![number(1)])],
        signature: UnresolvedSignature::new().outputs(vec![UnresolvedType::FieldElement.mock()]),
    }
    .mock();
    let foo1 = Function {
        arguments: vec![Parameter {
            id: Variable::new("x", UnresolvedType::FieldElement.mock()).mock(),
            private: true,
        }
        .mock()],
        statements: vec![returning(vec![name("x")])],
        signature: UnresolvedSignature::new()
            .inputs(vec![UnresolvedType::FieldElement.mock()])
            .outputs(vec![UnresolvedType::FieldElement.mock()]),
    }
    .mock();
    let main = Function {
        arguments: vec![],
        statements: vec![returning(vec![Expression::Add(
            Box::new(Expression::FunctionCall("foo".into(), vec![number(7)]).mock()),
            Box::new(Expression::FunctionCall("foo".into(), vec![]).mock()),
        )
        .mock()])],
        signature: UnresolvedSignature::new().outputs(vec![UnresolvedType::FieldElement.mock()]),
    }
    .mock();
    let module = Module::with_symbols(vec![
        SymbolDeclaration {
            id: "foo".into(),
            symbol: Symbol::HereFunction(foo0),
        }
        .mock(),
        SymbolDeclaration {
            id: "foo".into(),
            symbol: Symbol::HereFunction(foo1),
        }
        .mock(),
        SymbolDeclaration {
            id: "main".into(),
            symbol: Symbol::HereFunction(main),
        }
        .mock(),
    ]);
    let program = Program {
        modules: modules(vec![("m", module)]),
        main: "m".into(),
    };
    let typed = Checker::check::<Bn128Field>(program).unwrap();
    let functions = &typed.modules.get("m").unwrap().functions;

    let without = FunctionKey::with_id("foo")
        .signature(Signature::new().outputs(vec![Type::FieldElement]));
    let with = FunctionKey::with_id("foo").signature(
        Signature::new()
            .inputs(vec![Type::FieldElement])
            .outputs(vec![Type::FieldElement]),
    );
    assert!(matches!(
        functions.get(&without),
        Some(TypedFunctionSymbol::Here(_))
    ));
    assert!(matches!(
        functions.get(&with),
        Some(TypedFunctionSymbol::Here(_))
    ));

    let main_key =
        FunctionKey::with_id("main").signature(Signature::new().outputs(vec![Type::FieldElement]));
    match functions.get(&main_key) {
        Some(TypedFunctionSymbol::Here(f)) => {
            assert_eq!(
                f.statements,
                vec![TypedStatement::Return(vec![TypedExpression::FieldElement(
                    FieldElementExpression::Add(
                        Box::new(FieldElementExpression::FunctionCall(
                            with,
                            vec![TypedExpression::FieldElement(
                                FieldElementExpression::Number(Bn128Field::from(7))
                            )]
                        )),
                        Box::new(FieldElementExpression::FunctionCall(without, vec![])),
                    )
                )])]
            );
        }
        _ => panic!("main should be a function of the module"),
    }
}

fn statement_errors(s: zokrates_core::absy::StatementNode) -> Vec<String> {
    let types: TypeMap = StringMap::new();
    checker()
        .check_statement::<Bn128Field>(s, &"".into(), &types)
        .unwrap_err()
        .into_iter()
        .map(|e| e.message)
        .collect()
}

#[test]
fn statement_rules() {
    assert_eq!(
        statement_errors(Statement::Assertion(name("i")).mock()),
        vec!["Expected i to be of type bool, found field"]
    );
    assert_eq!(
        statement_errors(
            Statement::Definition(Assignee::Identifier("i".into()).mock(), name("b")).mock()
        ),
        vec!["Expression b of type bool cannot be assigned to i of type field"]
    );
    assert_eq!(
        statement_errors(
            Statement::For(
                Variable::new("k", UnresolvedType::Boolean.mock()).mock(),
                number(0),
                number(2),
                vec![]
            )
            .mock()
        ),
        vec!["Variable in for loop cannot have type bool"]
    );
    assert_eq!(
        statement_errors(
            Statement::For(
                Variable::new("k", UnresolvedType::FieldElement.mock()).mock(),
                name("b"),
                number(2),
                vec![]
            )
            .mock()
        ),
        vec!["Expected lower loop bound to be of type field, found bool"]
    );
    assert_eq!(
        statement_errors(
            Statement::For(
                Variable::new("k", UnresolvedType::FieldElement.mock()).mock(),
                number(0),
                name("u"),
                vec![]
            )
            .mock()
        ),
        vec!["Expected higher loop bound to be of type field, found u8"]
    );
    assert_eq!(
        statement_errors(
            Statement::MultipleDefinition(vec![Assignee::Identifier("i".into()).mock()], name("i"))
                .mock()
        ),
        vec!["i should be a function call"]
    );
    assert_eq!(
        statement_errors(
            Statement::Definition(
                Assignee::Select(
                    Box::new(Assignee::Identifier("i".into()).mock()),
                    Box::new(RangeOrExpression::Expression(number(0)))
                )
                .mock(),
                number(1)
            )
            .mock()
        ),
        vec!["Cannot access element at index 0 on i of type field"]
    );
    assert_eq!(
        statement_errors(
            Statement::Definition(
                Assignee::Select(
                    Box::new(Assignee::Identifier("a".into()).mock()),
                    Box::new(RangeOrExpression::Expression(name("b")))
                )
                .mock(),
                number(1)
            )
            .mock()
        ),
        vec!["Expected array a index to have type field, found bool"]
    );
    assert_eq!(
        statement_errors(
            Statement::Definition(
                Assignee::Member(
                    Box::new(Assignee::Identifier("i".into()).mock()),
                    Box::new("x".into())
                )
                .mock(),
                number(1)
            )
            .mock()
        ),
        vec!["Cannot access field x on i as of type field"]
    );
}

#[test]
fn function_rules() {
    let types: TypeMap = StringMap::new();
    let errors = |f: zokrates_core::absy::FunctionNode| -> Vec<String> {
        Checker::new()
            .check_function::<Bn128Field>(f, &"".into(), &types)
            .unwrap_err()
            .into_iter()
            .map(|e| e.message)
            .collect()
    };
    let no_return = Function {
        arguments: vec![],
        statements: vec![],
        signature: UnresolvedSignature::new(),
    }
    .mock();
    assert_eq!(errors(no_return), vec!["Expected a return statement"]);

    let two_returns = Function {
        arguments: vec![],
        statements: vec![returning(vec![]), returning(vec![])],
        signature: UnresolvedSignature::new(),
    }
    .mock();
    assert_eq!(errors(two_returns), vec!["Expected a single return statement"]);

    let wrong_types = Function {
        arguments: vec![],
        statements: vec![returning(vec![
            number(1),
            Expression::BooleanConstant(true).mock(),
        ])],
        signature: UnresolvedSignature::new().outputs(vec![UnresolvedType::FieldElement.mock()]),
    }
    .mock();
    assert_eq!(
        errors(wrong_types),
        vec!["Expected (field) in return statement, found (field, bool)"]
    );

    let undefined_types = Function {
        arguments: vec![Parameter {
            id: Variable::new("x", UnresolvedType::User("Foo".into()).mock()).mock(),
            private: true,
        }
        .mock()],
        statements: vec![returning(vec![])],
        signature: UnresolvedSignature::new().inputs(vec![UnresolvedType::User("Foo".into()).mock()]),
    }
    .mock();
    assert_eq!(
        errors(undefined_types),
        vec!["Undefined type Foo", "Undefined type Foo"]
    );
}

#[test]
fn scopes() {
    let mut checker = Checker::new();
    assert!(checker.insert_into_scope(TypedVariable::field_element("outer")));
    checker.enter_scope();
    assert!(checker.insert_into_scope(TypedVariable::boolean("inner")));
    // a name that is taken cannot be declared again, whatever the type
    assert!(!checker.insert_into_scope(TypedVariable::boolean("outer")));
    assert_eq!(checker.get_scope("inner").map(|v| v.level), Some(1));
    assert_eq!(
        checker.get_scope("outer").map(|v| v.id.get_type()),
        Some(Type::FieldElement)
    );
    checker.exit_scope();
    assert!(checker.get_scope("inner").is_none());
    assert!(checker.get_scope("outer").is_some());
    assert_eq!(checker.level, 0);
    let scope: Vec<&ScopedVariable> = checker.scope.iter().collect();
    assert_eq!(scope.len(), 1);
}

#[test]
fn a_wrong_function_leaves_its_scope() {
    // def f(field a): field b   -- no return, so f is wrong
    let types: TypeMap = StringMap::new();
    let f = Function {
        arguments: vec![Parameter {
            id: Variable::new("a", UnresolvedType::FieldElement.mock()).mock(),
            private: true,
        }
        .mock()],
        statements: vec![
            Statement::Declaration(Variable::new("b", UnresolvedType::FieldElement.mock()).mock())
                .mock(),
            Statement::For(
                Variable::new("k", UnresolvedType::FieldElement.mock()).mock(),
                number(0),
                number(2),
                vec![Statement::Assertion(name("k")).mock()],
            )
            .mock(),
        ],
        signature: UnresolvedSignature::new().inputs(vec![UnresolvedType::FieldElement.mock()]),
    }
    .mock();
    let mut checker = Checker::new();
    assert!(checker
        .check_function::<Bn128Field>(f, &"".into(), &types)
        .is_err());
    assert_eq!(checker.level, 0);
    assert!(checker.scope.is_empty());
    // a function checked next does not see what the wrong one declared
    let g = Function {
        arguments: vec![],
        statements: vec![returning(vec![name("a")])],
        signature: UnresolvedSignature::new().outputs(vec![UnresolvedType::FieldElement.mock()]),
    }
    .mock();
    let errors: Vec<String> = checker
        .check_function::<Bn128Field>(g, &"".into(), &types)
        .unwrap_err()
        .into_iter()
        .map(|e| e.message)
        .collect();
    assert_eq!(errors, vec!["Identifier \"a\" is undefined"]);
}

#[test]
fn an_inline_struct_of_an_undefined_type_is_wrong_where_it_stands() {
    let types: TypeMap = StringMap::new();
    let e = Expression::InlineStruct("Foo".into(), vec![]).at(3, 5, 4);
    let error = checker()
        .check_expression::<Bn128Field>(e, &"".into(), &types)
        .unwrap_err();
    assert_eq!(error.message, "Undefined type Foo");
    assert_eq!(
        error.pos,
        Some((
            zokrates_core::parser::Position { line: 3, col: 5 },
            zokrates_core::parser::Position { line: 3, col: 9 }
        ))
    );
}
