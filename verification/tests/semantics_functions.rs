use num_bigint::BigUint;
use zokrates_core::absy::node::NodeValue;
use zokrates_core::absy::types::{UnresolvedSignature, UnresolvedType};
use zokrates_core::absy::{
    Assignee, Expression, ExpressionList, Function, Module, Modules, Parameter, Program,
    RangeOrExpression, SpreadOrExpression, Statement, StatementNode, Symbol, SymbolDeclaration,
    Variable,
};
use zokrates_core::collections::StringMap;
use zokrates_core::field::bn128::Bn128Field;
use zokrates_core::parser::Position;
use zokrates_core::semantics::scope::{Checker, ScopedVariable};
use zokrates_core::semantics::{Error, ErrorInner, State, TypeMap};
use zokrates_core::typed_absy::expression::{FieldElementExpression, TypedExpression};
use zokrates_core::typed_absy::identifier::Identifier;
use zokrates_core::typed_absy::program::{
    TypedAssignee, TypedExpressionList, TypedFunction, TypedStatement,
};
use zokrates_core::typed_absy::types::{FunctionKey, Signature, Type};
use zokrates_core::typed_absy::variable::Variable as TypedVariable;

fn number(n: u32) -> Vec<u8> {
    BigUint::from(n).to_bytes_le()
}

fn modules(list: Vec<(&str, Module)>) -> Modules {
    let mut modules: Modules = StringMap::new();
    for (id, module) in list {
        modules.insert(id.to_string(), module);
    }
    modules
}

fn new_with_args(scope: Vec<ScopedVariable>, level: usize, functions: Vec<FunctionKey>) -> Checker {
    Checker {
        scope,
        functions,
        level,
    }
}

fn mock_error(message: &str) -> ErrorInner {
    ErrorInner {
        pos: Some((Position::mock(), Position::mock())),
        message: message.into(),
    }
}

#[test]
fn undefined_variable_in_statement() {
    // a = b
    // b undefined
    let statement: StatementNode = Statement::Definition(
        Assignee::Identifier("a".into()).mock(),
        Expression::Identifier("b".into()).mock(),
    )
    .mock();

    let types: TypeMap = StringMap::new();
    let module_id: String = "".into();

    let mut checker = Checker::new();
    assert_eq!(
        checker.check_statement::<Bn128Field>(statement, &module_id, &types),
        Err(vec![mock_error("Identifier \"b\" is undefined")])
    );
}

#[test]
fn defined_variable_in_statement() {
    // a = b
    // b defined
    let statement: StatementNode = Statement::Definition(
        Assignee::Identifier("a".into()).mock(),
        Expression::Identifier("b".into()).mock(),
    )
    .mock();

    let types: TypeMap = StringMap::new();
    let module_id: String = "".into();

    let scope = vec![
        ScopedVariable {
            id: TypedVariable::field_element("a"),
            level: 0,
        },
        ScopedVariable {
            id: TypedVariable::field_element("b"),
            level: 0,
        },
    ];
    let mut checker = new_with_args(scope, 1, vec![]);
    assert_eq!(
        checker.check_statement::<Bn128Field>(statement, &module_id, &types),
        Ok(TypedStatement::Definition(
            TypedAssignee::Identifier(TypedVariable::field_element("a")),
            TypedExpression::FieldElement(FieldElementExpression::Identifier(Identifier::from(
                "b"
            )))
        ))
    );
}

#[test]
fn declared_in_other_function() {
    // def foo():
    //   field a = 1
    //   return
    // def bar():
    //   return a
    // should fail
    let foo_args = vec![];
    let foo_statements = vec![
        Statement::Declaration(Variable::new("a", UnresolvedType::FieldElement.mock()).mock())
            .mock(),
        Statement::Definition(
            Assignee::Identifier("a".into()).mock(),
            Expression::FieldConstant(number(1)).mock(),
        )
        .mock(),
        Statement::Return(
            ExpressionList {
                expressions: vec![],
            }
            .mock(),
        )
        .mock(),
    ];
    let foo = Function {
        arguments: foo_args,
        statements: foo_statements,
        signature: UnresolvedSignature::new(),
    }
    .mock();

    let bar_args = vec![];
    let bar_statements = vec![Statement::Return(
        ExpressionList {
            expressions: vec![Expression::Identifier("a".into()).mock()],
        }
        .mock(),
    )
    .mock()];

    let bar = Function {
        arguments: bar_args,
        statements: bar_statements,
        signature: UnresolvedSignature {
            inputs: vec![],
            outputs: vec![UnresolvedType::FieldElement.mock()],
        },
    }
    .mock();

    let symbols = vec![
        SymbolDeclaration {
            id: "foo".into(),
            symbol: Symbol::HereFunction(foo),
        }
        .mock(),
        SymbolDeclaration {
            id: "bar".into(),
            symbol: Symbol::HereFunction(bar),
        }
        .mock(),
    ];
    let module = Module {
        symbols,
        imports: vec![],
    };

    let mut state = State::<Bn128Field>::new(modules(vec![("main", module)]));

    let mut checker = Checker::new();
    assert_eq!(
        checker.check_module(&"main".into(), &mut state),
        Err(vec![Error {
            inner: mock_error("Identifier \"a\" is undefined"),
            module_id: "main".into()
        }])
    );
}

#[test]
fn declared_in_two_scopes() {
    // def foo():
    //   a = 1
    //   return
    // def bar():
    //   a = 2
    //   return
    // def main():
    //   return 1
    // should pass
    let foo_args = vec![];
    let foo_statements = vec![
        Statement::Declaration(Variable::new("a", UnresolvedType::FieldElement.mock()).mock())
            .mock(),
        Statement::Definition(
            Assignee::Identifier("a".into()).mock(),
            Expression::FieldConstant(number(1)).mock(),
        )
        .mock(),
        Statement::Return(
            ExpressionList {
                expressions: vec![],
            }
            .mock(),
        )
        .mock(),
    ];

    let foo = Function {
        arguments: foo_args,
        statements: foo_statements,
        signature: UnresolvedSignature::new(),
    }
    .mock();

    let bar_args = vec![];
    let bar_statements = vec![
        Statement::Declaration(Variable::new("a", UnresolvedType::FieldElement.mock()).mock())
            .mock(),
        Statement::Definition(
            Assignee::Identifier("a".into()).mock(),
            Expression::FieldConstant(number(2)).mock(),
        )
        .mock(),
        Statement::Return(
            ExpressionList {
                expressions: vec![],
            }
            .mock(),
        )
        .mock(),
    ];
    let bar = Function {
        arguments: bar_args,
        statements: bar_statements,
        signature: UnresolvedSignature::new(),
    }
    .mock();

    let main_args = vec![];
    let main_statements = vec![Statement::Return(
        ExpressionList {
            expressions: vec![Expression::FieldConstant(number(1)).mock()],
        }
        .mock(),
    )
    .mock()];

    let main = Function {
        arguments: main_args,
        statements: main_statements,
        signature: UnresolvedSignature {
            inputs: vec![],
            outputs: vec![UnresolvedType::FieldElement.mock()],
        },
    }
    .mock();

    let symbols = vec![
        SymbolDeclaration {
            id: "foo".into(),
            symbol: Symbol::HereFunction(foo),
        }
        .mock(),
        SymbolDeclaration {
            id: "bar".into(),
            symbol: Symbol::HereFunction(bar),
        }
        .mock(),
        SymbolDeclaration {
            id: "main".into(),
            symbol: Symbol::HereFunction(main),
        }
        .mock(),
    ];
    let module = Module {
        symbols,
        imports: vec![],
    };

    let mut state = State::<Bn128Field>::new(modules(vec![("main", module)]));

    let mut checker = Checker::new();
    assert!(checker.check_module(&"main".into(), &mut state).is_ok());
}

#[test]
fn for_index_after_end() {
    // def foo():
    //   for field i in 0..10 do
    //   endfor
    //   return i
    // should fail
    let foo_statements = vec![
        Statement::For(
            Variable::new("i", UnresolvedType::FieldElement.mock()).mock(),
            Expression::FieldConstant(number(0)).mock(),
            Expression::FieldConstant(number(10)).mock(),
            vec![],
        )
        .mock(),
        Statement::Return(
            ExpressionList {
                expressions: vec![Expression::Identifier("i".into()).mock()],
            }
            .mock(),
        )
        .mock(),
    ];
    let foo = Function {
        arguments: vec![],
        statements: foo_statements,
        signature: UnresolvedSignature {
            inputs: vec![],
            outputs: vec![UnresolvedType::FieldElement.mock()],
        },
    }
    .mock();

    let types: TypeMap = StringMap::new();
    let module_id: String = "".into();

    let mut checker = Checker::new();
    assert_eq!(
        checker.check_function::<Bn128Field>(foo, &module_id, &types),
        Err(vec![mock_error("Identifier \"i\" is undefined")])
    );
}

#[test]
fn for_index_in_for() {
    // def foo():
    //   for i in 0..10 do
    //     a = i
    //   endfor
    //   return
    // should pass

    let for_statements = vec![
        Statement::Declaration(Variable::new("a", UnresolvedType::FieldElement.mock()).mock())
            .mock(),
        Statement::Definition(
            Assignee::Identifier("a".into()).mock(),
            Expression::Identifier("i".into()).mock(),
        )
        .mock(),
    ];

    let foo_statements = vec![
        Statement::For(
            Variable::new("i", UnresolvedType::FieldElement.mock()).mock(),
            Expression::FieldConstant(number(0)).mock(),
            Expression::FieldConstant(number(10)).mock(),
            for_statements,
        )
        .mock(),
        Statement::Return(
            ExpressionList {
                expressions: vec![],
            }
            .mock(),
        )
        .mock(),
    ];

    let for_statements_checked = vec![
        TypedStatement::Declaration(TypedVariable::field_element("a")),
        TypedStatement::Definition(
            TypedAssignee::Identifier(TypedVariable::field_element("a")),
            TypedExpression::FieldElement(FieldElementExpression::Identifier(Identifier::from(
                "i",
            ))),
        ),
    ];

    let foo_statements_checked = vec![
        TypedStatement::For(
            TypedVariable::field_element("i"),
            FieldElementExpression::Number(Bn128Field::from(0)),
            FieldElementExpression::Number(Bn128Field::from(10)),
            for_statements_checked,
        ),
        TypedStatement::Return(vec![]),
    ];

    let foo = Function {
        arguments: vec![],
        statements: foo_statements,
        signature: UnresolvedSignature::new(),
    }
    .mock();

    let foo_checked = TypedFunction {
        arguments: vec![],
        statements: foo_statements_checked,
        signature: Signature::new(),
    };

    let types: TypeMap = StringMap::new();
    let module_id: String = "".into();

    let mut checker = Checker::new();
    assert_eq!(
        checker.check_function::<Bn128Field>(foo, &module_id, &types),
        Ok(foo_checked)
    );
}

#[test]
fn arity_mismatch() {
    // def foo():
    //   return 1, 2
    // def bar():
    //   field a = foo()
    // should fail
    let bar_statements: Vec<StatementNode> = vec![
        Statement::Declaration(Variable::new("a", UnresolvedType::FieldElement.mock()).mock())
            .mock(),
        Statement::MultipleDefinition(
            vec![Assignee::Identifier("a".into()).mock()],
            Expression::FunctionCall("foo".into(), vec![]).mock(),
        )
        .mock(),
        Statement::Return(
            ExpressionList {
                expressions: vec![],
            }
            .mock(),
        )
        .mock(),
    ];

    let foo = FunctionKey {
        id: "foo".into(),
        signature: Signature {
            inputs: vec![],
            outputs: vec![Type::FieldElement, Type::FieldElement],
        },
    };

    let functions = vec![foo];

    let bar = Function {
        arguments: vec![],
        statements: bar_statements,
        signature: UnresolvedSignature::new(),
    }
    .mock();

    let types: TypeMap = StringMap::new();
    let module_id: String = "".into();

    let mut checker = new_with_args(vec![], 0, functions);
    assert_eq!(
        checker.check_function::<Bn128Field>(bar, &module_id, &types),
        Err(vec![mock_error(
            "Function definition for function foo with signature () -> field not found."
        )])
    );
}

#[test]
fn multi_return_outside_multidef() {
    // def foo() -> (field, field):
    //   return 1, 2
    // def bar():
    //   2 == foo()
    //   return
    // should fail
    let bar_statements: Vec<StatementNode> = vec![
        Statement::Assertion(
            Expression::Eq(
                Box::new(Expression::FieldConstant(number(2)).mock()),
                Box::new(Expression::FunctionCall("foo".into(), vec![]).mock()),
            )
            .mock(),
        )
        .mock(),
        Statement::Return(
            ExpressionList {
                expressions: vec![],
            }
            .mock(),
        )
        .mock(),
    ];

    let foo = FunctionKey {
        id: "foo".into(),
        signature: Signature {
            inputs: vec![],
            outputs: vec![Type::FieldElement, Type::FieldElement],
        },
    };

    let functions = vec![foo];

    let bar = Function {
        arguments: vec![],
        statements: bar_statements,
        signature: UnresolvedSignature {
            inputs: vec![],
            outputs: vec![],
        },
    }
    .mock();

    let types: TypeMap = StringMap::new();
    let module_id: String = "".into();

    let mut checker = new_with_args(vec![], 0, functions);
    assert_eq!(
        checker.check_function::<Bn128Field>(bar, &module_id, &types),
        Err(vec![mock_error(
            "Function definition for function foo with signature () -> _ not found."
        )])
    );
}

#[test]
fn function_undefined_in_multidef() {
    // def bar():
    //   field a = foo()
    //   return
    // should fail
    let bar_statements: Vec<StatementNode> = vec![
        Statement::Declaration(Variable::new("a", UnresolvedType::FieldElement.mock()).mock())
            .mock(),
        Statement::MultipleDefinition(
            vec![Assignee::Identifier("a".into()).mock()],
            Expression::FunctionCall("foo".into(), vec![]).mock(),
        )
        .mock(),
        Statement::Return(
            ExpressionList {
                expressions: vec![],
            }
            .mock(),
        )
        .mock(),
    ];

    let bar = Function {
        arguments: vec![],
        statements: bar_statements,
        signature: UnresolvedSignature::new(),
    }
    .mock();

    let types: TypeMap = StringMap::new();
    let module_id: String = "".into();

    let mut checker = new_with_args(vec![], 0, vec![]);
    assert_eq!(
        checker.check_function::<Bn128Field>(bar, &module_id, &types),
        Err(vec![mock_error(
            "Function definition for function foo with signature () -> field not found."
        )])
    );
}

#[test]
fn undefined_variable_in_multireturn_call() {
    // def foo(x):
    // 	return 1, 2
    // def main():
    // 	a, b = foo(x)
    // 	return 1
    // should fail

    let foo_statements: Vec<StatementNode> = vec![Statement::Return(
        ExpressionList {
            expressions: vec![
                Expression::FieldConstant(number(1)).mock(),
                Expression::FieldConstant(number(2)).mock(),
            ],
        }
        .mock(),
    )
    .mock()];

    let foo = Function {
        arguments: vec![Parameter {
            id: Variable::new("x", UnresolvedType::FieldElement.mock()).mock(),
            private: false,
        }
        .mock()],
        statements: foo_statements,
        signature: UnresolvedSignature {
            inputs: vec![UnresolvedType::FieldElement.mock()],
            outputs: vec![
                UnresolvedType::FieldElement.mock(),
                UnresolvedType::FieldElement.mock(),
            ],
        },
    }
    .mock();

    let main_statements: Vec<StatementNode> = vec![
        Statement::Declaration(Variable::new("a", UnresolvedType::FieldElement.mock()).mock())
            .mock(),
        Statement::Declaration(Variable::new("b", UnresolvedType::FieldElement.mock()).mock())
            .mock(),
        Statement::MultipleDefinition(
            vec![
                Assignee::Identifier("a".into()).mock(),
                Assignee::Identifier("b".into()).mock(),
            ],
            Expression::FunctionCall(
                "foo".into(),
                vec![Expression::Identifier("x".into()).mock()],
            )
            .mock(),
        )
        .mock(),
        Statement::Return(
            ExpressionList {
                expressions: vec![Expression::FieldConstant(number(1)).mock()],
            }
            .mock(),
        )
        .mock(),
    ];

    let main = Function {
        arguments: vec![],
        statements: main_statements,
        signature: UnresolvedSignature {
            inputs: vec![],
            outputs: vec![UnresolvedType::FieldElement.mock()],
        },
    }
    .mock();

    let module = Module {
        symbols: vec![
            SymbolDeclaration {
                id: "foo".into(),
                symbol: Symbol::HereFunction(foo),
            }
            .mock(),
            SymbolDeclaration {
                id: "main".into(),
                symbol: Symbol::HereFunction(main),
            }
            .mock(),
        ],
        imports: vec![],
    };

    let mut state = State::<Bn128Field>::new(modules(vec![("main", module)]));

    let mut checker = new_with_args(vec![], 0, vec![]);
    assert_eq!(
        checker.check_module(&"main".into(), &mut state),
        Err(vec![Error {
            inner: mock_error("Identifier \"x\" is undefined"),
            module_id: "main".into()
        }])
    );
}

#[test]
fn undeclared_variables() {
    // def foo() -> (field, field):
    //  return 1, 2
    // def main():
    //  a, b = foo()
    //  return 1
    // should fail

    let foo_statements: Vec<StatementNode> = vec![Statement::Return(
        ExpressionList {
            expressions: vec![
                Expression::FieldConstant(number(1)).mock(),
                Expression::FieldConstant(number(2)).mock(),
            ],
        }
        .mock(),
    )
    .mock()];

    let foo = Function {
        arguments: vec![],
        statements: foo_statements,
        signature: UnresolvedSignature {
            inputs: vec![],
            outputs: vec![
                UnresolvedType::FieldElement.mock(),
                UnresolvedType::FieldElement.mock(),
            ],
        },
    }
    .mock();

    let main_statements: Vec<StatementNode> = vec![
        Statement::MultipleDefinition(
            vec![
                Assignee::Identifier("a".into()).mock(),
                Assignee::Identifier("b".into()).mock(),
            ],
            Expression::FunctionCall("foo".into(), vec![]).mock(),
        )
        .mock(),
        Statement::Return(
            ExpressionList {
                expressions: vec![],
            }
            .mock(),
        )
        .mock(),
    ];

    let main = Function {
        arguments: vec![],
        statements: main_statements,
        signature: UnresolvedSignature {
            inputs: vec![],
            outputs: vec![],
        },
    }
    .mock();

    let module = Module {
        symbols: vec![
            SymbolDeclaration {
                id: "foo".into(),
                symbol: Symbol::HereFunction(foo),
            }
            .mock(),
            SymbolDeclaration {
                id: "main".into(),
                symbol: Symbol::HereFunction(main),
            }
            .mock(),
        ],
        imports: vec![],
    };

    let mut state = State::<Bn128Field>::new(modules(vec![("main", module)]));

    let mut checker = new_with_args(vec![], 0, vec![]);
    assert_eq!(
        checker.check_module(&"main".into(), &mut state),
        Err(vec![
            Error {
                inner: mock_error("Variable `a` is undeclared"),
                module_id: "main".into()
            },
            Error {
                inner: mock_error("Variable `b` is undeclared"),
                module_id: "main".into()
            }
        ])
    );
}

#[test]
fn assign_to_select() {
    // def foo() -> field:
    //  return 1
    // def main():
    //  field[1] a = [0]
    //  a[0] = foo()
    //  return
    // should succeed

    let foo_statements: Vec<StatementNode> = vec![Statement::Return(
        ExpressionList {
            expressions: vec![Expression::FieldConstant(number(1)).mock()],
        }
        .mock(),
    )
    .mock()];

    let foo = Function {
        arguments: vec![],
        statements: foo_statements,
        signature: UnresolvedSignature {
            inputs: vec![],
            outputs: vec![UnresolvedType::FieldElement.mock()],
        },
    }
    .mock();

    let main_statements: Vec<StatementNode> = vec![
        Statement::Declaration(
            Variable::new(
                "a",
                UnresolvedType::array(UnresolvedType::FieldElement.mock(), 1).mock(),
            )
            .mock(),
        )
        .mock(),
        Statement::Definition(
            Assignee::Identifier("a".into()).mock(),
            Expression::InlineArray(vec![SpreadOrExpression::Expression(
                Expression::FieldConstant(number(0)).mock(),
            )])
            .mock(),
        )
        .mock(),
        Statement::MultipleDefinition(
            vec![Assignee::Select(
                Box::new(Assignee::Identifier("a".into()).mock()),
                Box::new(RangeOrExpression::Expression(
                    Expression::FieldConstant(number(0)).mock(),
                )),
            )
            .mock()],
            Expression::FunctionCall("foo".into(), vec![]).mock(),
        )
        .mock(),
        Statement::Return(
            ExpressionList {
                expressions: vec![],
            }
            .mock(),
        )
        .mock(),
    ];

    let main = Function {
        arguments: vec![],
        statements: main_statements,
        signature: UnresolvedSignature {
            inputs: vec![],
            outputs: vec![],
        },
    }
    .mock();

    let module = Module {
        symbols: vec![
            SymbolDeclaration {
                id: "foo".into(),
                symbol: Symbol::HereFunction(foo),
            }
            .mock(),
            SymbolDeclaration {
                id: "main".into(),
                symbol: Symbol::HereFunction(main),
            }
            .mock(),
        ],
        imports: vec![],
    };

    let mut state = State::<Bn128Field>::new(modules(vec![("main", module)]));

    let mut checker = new_with_args(vec![], 0, vec![]);
    assert!(checker.check_module(&"main".into(), &mut state).is_ok());
}

#[test]
fn function_undefined() {
    // def bar():
    //   1 == foo()
    //   return
    // should fail
    let bar_statements: Vec<StatementNode> = vec![
        Statement::Assertion(
            Expression::Eq(
                Box::new(Expression::FieldConstant(number(1)).mock()),
                Box::new(Expression::FunctionCall("foo".into(), vec![]).mock()),
            )
            .mock(),
        )
        .mock(),
        Statement::Return(
            ExpressionList {
                expressions: vec![],
            }
            .mock(),
        )
        .mock(),
    ];

    let bar = Function {
        arguments: vec![],
        statements: bar_statements,
        signature: UnresolvedSignature::new(),
    }
    .mock();

    let types: TypeMap = StringMap::new();
    let module_id: String = "".into();

    let mut checker = new_with_args(vec![], 0, vec![]);
    assert_eq!(
        checker.check_function::<Bn128Field>(bar, &module_id, &types),
        Err(vec![mock_error(
            "Function definition for function foo with signature () -> _ not found."
        )])
    );
}

#[test]
fn return_undefined() {
    // def bar():
    //   return a, b
    // should fail
    let bar_statements: Vec<StatementNode> = vec![Statement::Return(
        ExpressionList {
            expressions: vec![
                Expression::Identifier("a".into()).mock(),
                Expression::Identifier("b".into()).mock(),
            ],
        }
        .mock(),
    )
    .mock()];

    let bar = Function {
        arguments: vec![],
        statements: bar_statements,
        signature: UnresolvedSignature {
            inputs: vec![],
            outputs: vec![
                UnresolvedType::FieldElement.mock(),
                UnresolvedType::FieldElement.mock(),
            ],
        },
    }
    .mock();

    let types: TypeMap = StringMap::new();
    let module_id: String = "".into();

    let mut checker = new_with_args(vec![], 0, vec![]);
    assert_eq!(
        checker.check_function::<Bn128Field>(bar, &module_id, &types),
        Err(vec![mock_error("Identifier \"a\" is undefined")])
    );
}

#[test]
fn multi_def() {
    // def foo():
    //   return 1, 2
    // def bar():
    //   field a, field b = foo()
    //   return a + b
    //
    // should pass
    let bar_statements: Vec<StatementNode> = vec![
        Statement::Declaration(Variable::new("a", UnresolvedType::FieldElement.mock()).mock())
            .mock(),
        Statement::Declaration(Variable::new("b", UnresolvedType::FieldElement.mock()).mock())
            .mock(),
        Statement::MultipleDefinition(
            vec![
                Assignee::Identifier("a".into()).mock(),
                Assignee::Identifier("b".into()).mock(),
            ],
            Expression::FunctionCall("foo".into(), vec![]).mock(),
        )
        .mock(),
        Statement::Return(
            ExpressionList {
                expressions: vec![Expression::Add(
                    Box::new(Expression::Identifier("a".into()).mock()),
                    Box::new(Expression::Identifier("b".into()).mock()),
                )
                .mock()],
            }
            .mock(),
        )
        .mock(),
    ];

    let bar_statements_checked: Vec<TypedStatement<Bn128Field>> = vec![
        TypedStatement::Declaration(TypedVariable::field_element("a")),
        TypedStatement::Declaration(TypedVariable::field_element("b")),
        TypedStatement::MultipleDefinition(
            vec![
                TypedAssignee::Identifier(TypedVariable::field_element("a")),
                TypedAssignee::Identifier(TypedVariable::field_element("b")),
            ],
            TypedExpressionList::FunctionCall(
                FunctionKey::with_id("foo").signature(
                    Signature::new().outputs(vec![Type::FieldElement, Type::FieldElement]),
                ),
                vec![],
                vec![Type::FieldElement, Type::FieldElement],
            ),
        ),
        TypedStatement::Return(vec![TypedExpression::FieldElement(
            FieldElementExpression::Add(
                Box::new(FieldElementExpression::Identifier(Identifier::from("a"))),
                Box::new(FieldElementExpression::Identifier(Identifier::from("b"))),
            ),
        )]),
    ];

    let foo = FunctionKey {
        id: "foo".into(),
        signature: Signature {
            inputs: vec![],
            outputs: vec![Type::FieldElement, Type::FieldElement],
        },
    };

    let functions = vec![foo];

    let bar = Function {
        arguments: vec![],
        statements: bar_statements,
        signature: UnresolvedSignature {
            inputs: vec![],
            outputs: vec![UnresolvedType::FieldElement.mock()],
        },
    }
    .mock();

    let bar_checked = TypedFunction {
        arguments: vec![],
        statements: bar_statements_checked,
        signature: Signature {
            inputs: vec![],
            outputs: vec![Type::FieldElement],
        },
    };

    let types: TypeMap = StringMap::new();
    let module_id: String = "".into();

    let mut checker = new_with_args(vec![], 0, functions);
    assert_eq!(
        checker.check_function(bar, &module_id, &types),
        Ok(bar_checked)
    );
}

#[test]
fn duplicate_main_function() {
    // def main(a):
    //   return 1
    // def main():
    //   return 1
    //
    // should fail
    let main1_statements: Vec<StatementNode> = vec![Statement::Return(
        ExpressionList {
            expressions: vec![Expression::FieldConstant(number(1)).mock()],
        }
        .mock(),
    )
    .mock()];

    let main1_arguments = vec![Parameter {
        id: Variable::new("a", UnresolvedType::FieldElement.mock()).mock(),
        private: false,
    }
    .mock()];

    let main2_statements: Vec<StatementNode> = vec![Statement::Return(
        ExpressionList {
            expressions: vec![Expression::FieldConstant(number(1)).mock()],
        }
        .mock(),
    )
    .mock()];

    let main2_arguments = vec![];

    let main1 = Function {
        arguments: main1_arguments,
        statements: main1_statements,
        signature: UnresolvedSignature {
            inputs: vec![UnresolvedType::FieldElement.mock()],
            outputs: vec![UnresolvedType::FieldElement.mock()],
        },
    }
    .mock();

    let main2 = Function {
        arguments: main2_arguments,
        statements: main2_statements,
        signature: UnresolvedSignature {
            inputs: vec![],
            outputs: vec![UnresolvedType::FieldElement.mock()],
        },
    }
    .mock();

    let symbols = vec![
        SymbolDeclaration {
            id: "main".into(),
            symbol: Symbol::HereFunction(main1),
        }
        .mock(),
        SymbolDeclaration {
            id: "main".into(),
            symbol: Symbol::HereFunction(main2),
        }
        .mock(),
    ];

    let main_module = Module {
        symbols,
        imports: vec![],
    };

    let program = Program {
        modules: modules(vec![("main", main_module)]),
        main: "main".into(),
    };

    let mut checker = Checker::new();
    assert_eq!(
        checker.check_program::<Bn128Field>(program),
        Err(vec![Error {
            inner: ErrorInner {
                pos: None,
                message: "Only one main function allowed, found 2".into()
            },
            module_id: "main".into()
        }])
    );
}

#[test]
fn no_main_function() {
    let foo = Function {
        arguments: vec![],
        statements: vec![Statement::Return(
            ExpressionList {
                expressions: vec![],
            }
            .mock(),
        )
        .mock()],
        signature: UnresolvedSignature::new(),
    }
    .mock();
    let module = Module::with_symbols(vec![SymbolDeclaration {
        id: "foo".into(),
        symbol: Symbol::HereFunction(foo),
    }
    .mock()]);
    let program = Program {
        modules: modules(vec![("main", module)]),
        main: "main".into(),
    };
    assert_eq!(
        Checker::check::<Bn128Field>(program),
        Err(vec![Error {
            inner: ErrorInner {
                pos: None,
                message: "No main function found".into()
            },
            module_id: "main".into()
        }])
    );
}

#[test]
fn single_main_function() {
    let main = Function {
        arguments: vec![Parameter {
            id: Variable::new("a", UnresolvedType::FieldElement.mock()).mock(),
            private: true,
        }
        .mock()],
        statements: vec![Statement::Return(
            ExpressionList {
                expressions: vec![Expression::Identifier("a".into()).mock()],
            }
            .mock(),
        )
        .mock()],
        signature: UnresolvedSignature {
            inputs: vec![UnresolvedType::FieldElement.mock()],
            outputs: vec![UnresolvedType::FieldElement.mock()],
        },
    }
    .mock();
    let module = Module::with_symbols(vec![SymbolDeclaration {
        id: "main".into(),
        symbol: Symbol::HereFunction(main),
    }
    .mock()]);
    let program = Program {
        modules: modules(vec![("main", module)]),
        main: "main".into(),
    };
    let typed = Checker::check::<Bn128Field>(program).unwrap();
    assert_eq!(typed.main, "main");
    let module = typed.modules.get("main").unwrap();
    assert_eq!(module.functions.len(), 1);
    // the signature of the typed function is the declared signature
    assert_eq!(
        module.functions.entries[0].0,
        FunctionKey::with_id("main").signature(
            Signature::new()
                .inputs(vec![Type::FieldElement])
                .outputs(vec![Type::FieldElement])
        )
    );
}

#[test]
fn shadowing_with_same_type() {
    //   field a
    //	 field a
    //
    // should fail

    let types: TypeMap = StringMap::new();
    let module_id: String = "".into();
    let mut checker = Checker::new();
    let _: Result<TypedStatement<Bn128Field>, Vec<ErrorInner>> = checker.check_statement(
        Statement::Declaration(Variable::new("a", UnresolvedType::FieldElement.mock()).mock())
            .mock(),
        &module_id,
        &types,
    );
    let s2_checked: Result<TypedStatement<Bn128Field>, Vec<ErrorInner>> = checker
        .check_statement(
            Statement::Declaration(
                Variable::new("a", UnresolvedType::FieldElement.mock()).mock(),
            )
            .mock(),
            &module_id,
            &types,
        );
    assert_eq!(
        s2_checked,
        Err(vec![mock_error("Duplicate declaration for variable named a")])
    );
}

#[test]
fn shadowing_with_different_type() {
    //   field a
    //	 bool a
    //
    // should fail

    let types: TypeMap = StringMap::new();
    let module_id: String = "".into();

    let mut checker = Checker::new();
    let _: Result<TypedStatement<Bn128Field>, Vec<ErrorInner>> = checker.check_statement(
        Statement::Declaration(Variable::new("a", UnresolvedType::FieldElement.mock()).mock())
            .mock(),
        &module_id,
        &types,
    );
    let s2_checked: Result<TypedStatement<Bn128Field>, Vec<ErrorInner>> = checker
        .check_statement(
            Statement::Declaration(Variable::new("a", UnresolvedType::Boolean.mock()).mock())
                .mock(),
            &module_id,
            &types,
        );
    assert_eq!(
        s2_checked,
        Err(vec![mock_error("Duplicate declaration for variable named a")])
    );
}
