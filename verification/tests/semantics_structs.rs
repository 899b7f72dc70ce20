use num_bigint::BigUint;
use zokrates_core::absy::node::NodeValue;
use zokrates_core::absy::types::UnresolvedType;
use zokrates_core::absy::{
    Assignee, Expression, Module, Modules, Parameter as AbsyParameter, RangeOrExpression,
    Statement, StructDefinition, StructDefinitionField, Symbol, SymbolDeclaration,
    Variable as AbsyVariable,
};
use zokrates_core::collections::StringMap;
use zokrates_core::field::bn128::Bn128Field;
use zokrates_core::semantics::scope::Checker;
use zokrates_core::semantics::{State, TypeMap};
use zokrates_core::typed_absy::expression::{
    BooleanExpression, FieldElementExpression, StructExpressionInner, TypedExpression,
};
use zokrates_core::typed_absy::identifier::Identifier;
use zokrates_core::typed_absy::parameter::Parameter;
use zokrates_core::typed_absy::program::{TypedAssignee, TypedStatement};
use zokrates_core::typed_absy::types::{StructMember, StructType, Type};
use zokrates_core::typed_absy::variable::Variable;

const MODULE_ID: &str = "";

fn number(n: u32) -> Vec<u8> {
    BigUint::from(n).to_bytes_le()
}

fn modules(list: Vec<(&str, Module)>) -> Modules {
    let mut modules: Modules = StringMap::new();
    for (id, module) in list {
        modules.insert(id.to_string(), module);
    }
    modules
}

fn field(id: &str, ty: UnresolvedType) -> zokrates_core::absy::StructDefinitionFieldNode {
    StructDefinitionField {
        id: id.into(),
        ty: ty.mock(),
    }
    .mock()
}

/// solver function to create a module at location "" with a single symbol `Foo { foo: field }`
fn create_module_with_foo(s: StructDefinition) -> (Checker, State<Bn128Field>) {
    let module_id: String = "".into();

    let module: Module = Module {
        imports: vec![],
        symbols: vec![SymbolDeclaration {
            id: "Foo".into(),
            symbol: Symbol::HereType(s.mock()),
        }
        .mock()],
    };

    let mut state = State::<Bn128Field>::new(modules(vec![("", module)]));

    let mut checker = Checker::new();

    checker.check_module(&module_id, &mut state).unwrap();

    (checker, state)
}

fn foo_field() -> StructDefinition {
    StructDefinition {
        fields: vec![field("foo", UnresolvedType::FieldElement)],
    }
}

fn foo_field_bar_bool() -> StructDefinition {
    StructDefinition {
        fields: vec![
            field("foo", UnresolvedType::FieldElement),
            field("bar", UnresolvedType::Boolean),
        ],
    }
}

#[test]
fn empty_def() {
    // an empty struct should be allowed to be defined
    let module_id: String = "".into();
    let types: TypeMap = StringMap::new();
    let declaration = StructDefinition { fields: vec![] }.mock();

    let expected_type = Type::Struct(StructType::new("".into(), "Foo".into(), vec![]));

    assert_eq!(
        Checker::new().check_struct_type_declaration(
            "Foo".into(),
            declaration,
            &module_id,
            &types
        ),
        Ok(expected_type)
    );
}

#[test]
fn valid_def() {
    // a valid struct should be allowed to be defined
    let module_id: String = "".into();
    let types: TypeMap = StringMap::new();
    let declaration = foo_field_bar_bool().mock();

    let expected_type = Type::Struct(StructType::new(
        "".into(),
        "Foo".into(),
        vec![
            StructMember::new("foo".into(), Type::FieldElement),
            StructMember::new("bar".into(), Type::Boolean),
        ],
    ));

    assert_eq!(
        Checker::new().check_struct_type_declaration(
            "Foo".into(),
            declaration,
            &module_id,
            &types
        ),
        Ok(expected_type)
    );
}

#[test]
fn preserve_order() {
    // two structs with inverted members are not equal
    let module_id: String = "".into();
    let types: TypeMap = StringMap::new();

    let declaration0 = foo_field_bar_bool().mock();

    let declaration1 = StructDefinition {
        fields: vec![
            field("bar", UnresolvedType::Boolean),
            field("foo", UnresolvedType::FieldElement),
        ],
    }
    .mock();

    assert_ne!(
        Checker::new().check_struct_type_declaration(
            "Foo".into(),
            declaration0,
            &module_id,
            &types
        ),
        Checker::new().check_struct_type_declaration(
            "Foo".into(),
            declaration1,
            &module_id,
            &types
        )
    );
}

#[test]
fn duplicate_member_def() {
    // definition of a struct with a duplicate member should be rejected
    let module_id: String = "".into();
    let types: TypeMap = StringMap::new();

    let declaration = StructDefinition {
        fields: vec![
            field("foo", UnresolvedType::FieldElement),
            field("foo", UnresolvedType::Boolean),
        ],
    }
    .mock();

    assert_eq!(
        Checker::new()
            .check_struct_type_declaration("Foo".into(), declaration, &module_id, &types)
            .unwrap_err()[0]
            .message,
        "Duplicate key foo in struct definition"
    );
}

#[test]
fn recursive() {
    // a struct wrapping another struct should be allowed to be defined

    // struct Foo = { foo: field }
    // struct Bar = { foo: Foo }

    let module_id: String = "".into();

    let module: Module = Module {
        imports: vec![],
        symbols: vec![
            SymbolDeclaration {
                id: "Foo".into(),
                symbol: Symbol::HereType(foo_field().mock()),
            }
            .mock(),
            SymbolDeclaration {
                id: "Bar".into(),
                symbol: Symbol::HereType(
                    StructDefinition {
                        fields: vec![field("foo", UnresolvedType::User("Foo".into()))],
                    }
                    .mock(),
                ),
            }
            .mock(),
        ],
    };

    let mut state = State::<Bn128Field>::new(modules(vec![("", module)]));

    assert!(Checker::new().check_module(&module_id, &mut state).is_ok());
    assert_eq!(
        state.types.get(&module_id).unwrap().get("Bar").unwrap(),
        &Type::Struct(StructType::new(
            module_id.clone(),
            "Bar".into(),
            vec![StructMember::new(
                "foo".into(),
                Type::Struct(StructType::new(
                    module_id,
                    "Foo".into(),
                    vec![StructMember::new("foo".into(), Type::FieldElement)]
                ))
            )]
        ))
    );
}

#[test]
fn recursive_undefined() {
    // a struct wrapping an undefined struct should be rejected

    // struct Bar = { foo: Foo }

    let module_id: String = "".into();

    let module: Module = Module {
        imports: vec![],
        symbols: vec![SymbolDeclaration {
            id: "Bar".into(),
            symbol: Symbol::HereType(
                StructDefinition {
                    fields: vec![field("foo", UnresolvedType::User("Foo".into()))],
                }
                .mock(),
            ),
        }
        .mock()],
    };

    let mut state = State::<Bn128Field>::new(modules(vec![("", module)]));

    assert!(Checker::new().check_module(&module_id, &mut state).is_err());
}

#[test]
fn self_referential() {
    // a struct wrapping itself should be rejected

    // struct Foo = { foo: Foo }

    let module_id: String = "".into();

    let module: Module = Module {
        imports: vec![],
        symbols: vec![SymbolDeclaration {
            id: "Foo".into(),
            symbol: Symbol::HereType(
                StructDefinition {
                    fields: vec![field("foo", UnresolvedType::User("Foo".into()))],
                }
                .mock(),
            ),
        }
        .mock()],
    };

    let mut state = State::<Bn128Field>::new(modules(vec![("", module)]));

    assert!(Checker::new().check_module(&module_id, &mut state).is_err());
}

#[test]
fn cyclic() {
    // A wrapping B wrapping A should be rejected

    // struct Foo = { bar: Bar }
    // struct Bar = { foo: Foo }

    let module_id: String = "".into();

    let module: Module = Module {
        imports: vec![],
        symbols: vec![
            SymbolDeclaration {
                id: "Foo".into(),
                symbol: Symbol::HereType(
                    StructDefinition {
                        fields: vec![field("bar", UnresolvedType::User("Bar".into()))],
                    }
                    .mock(),
                ),
            }
            .mock(),
            SymbolDeclaration {
                id: "Bar".into(),
                symbol: Symbol::HereType(
                    StructDefinition {
                        fields: vec![field("foo", UnresolvedType::User("Foo".into()))],
                    }
                    .mock(),
                ),
            }
            .mock(),
        ],
    };

    let mut state = State::<Bn128Field>::new(modules(vec![("", module)]));

    assert!(Checker::new().check_module(&module_id, &mut state).is_err());
}

#[test]
fn ty() {
    // a defined type can be checked
    // Foo { foo: field }
    // Foo

    // an undefined type cannot be checked
    // Bar

    let (checker, state) = create_module_with_foo(foo_field());

    assert_eq!(
        checker.check_type(
            UnresolvedType::User("Foo".into()).mock(),
            &MODULE_ID.into(),
            &state.types
        ),
        Ok(Type::Struct(StructType::new(
            "".into(),
            "Foo".into(),
            vec![StructMember::new("foo".into(), Type::FieldElement)]
        )))
    );

    assert_eq!(
        checker
            .check_type(
                UnresolvedType::User("Bar".into()).mock(),
                &MODULE_ID.into(),
                &state.types
            )
            .unwrap_err()
            .message,
        "Undefined type Bar"
    );
}

#[test]
fn parameter() {
    // a defined type can be used as parameter

    // an undefined type cannot be used as parameter

    let (checker, state) = create_module_with_foo(foo_field());

    assert_eq!(
        checker.check_parameter(
            AbsyParameter {
                id: AbsyVariable::new("a", UnresolvedType::User("Foo".into()).mock(),).mock(),
                private: true,
            }
            .mock(),
            &MODULE_ID.into(),
            &state.types,
        ),
        Ok(Parameter {
            id: Variable::with_id_and_type(
                Identifier::from("a"),
                Type::Struct(StructType::new(
                    "".into(),
                    "Foo".into(),
                    vec![StructMember::new("foo".into(), Type::FieldElement)]
                ))
            ),
            private: true
        })
    );

    assert_eq!(
        checker
            .check_parameter(
                AbsyParameter {
                    id: AbsyVariable::new("a", UnresolvedType::User("Bar".into()).mock(),).mock(),
                    private: true,
                }
                .mock(),
                &MODULE_ID.into(),
                &state.types,
            )
            .unwrap_err()[0]
            .message,
        "Undefined type Bar"
    );
}

#[test]
fn variable_declaration() {
    // a defined type can be used in a variable declaration

    // an undefined type cannot be used in a variable declaration

    let (mut checker, state) = create_module_with_foo(foo_field());

    assert_eq!(
        checker.check_statement::<Bn128Field>(
            Statement::Declaration(
                AbsyVariable::new("a", UnresolvedType::User("Foo".into()).mock(),).mock()
            )
            .mock(),
            &MODULE_ID.into(),
            &state.types,
        ),
        Ok(TypedStatement::Declaration(Variable::with_id_and_type(
            Identifier::from("a"),
            Type::Struct(StructType::new(
                "".into(),
                "Foo".into(),
                vec![StructMember::new("foo".into(), Type::FieldElement)]
            ))
        )))
    );

    assert_eq!(
        checker
            .check_parameter(
                AbsyParameter {
                    id: AbsyVariable::new("a", UnresolvedType::User("Bar".into()).mock(),).mock(),
                    private: true,
                }
                .mock(),
                &MODULE_ID.into(),
                &state.types,
            )
            .unwrap_err()[0]
            .message,
        "Undefined type Bar"
    );
}

#[test]
fn semantics_valid() {
    // accessing a member on a struct should succeed and return the right type

    // struct Foo = { foo: field }
    // Foo { foo: 42 }.foo

    let (checker, state) = create_module_with_foo(foo_field());

    assert_eq!(
        checker.check_expression::<Bn128Field>(
            Expression::Member(
                Box::new(
                    Expression::InlineStruct(
                        "Foo".into(),
                        vec![("foo".into(), Expression::FieldConstant(number(42)).mock())]
                    )
                    .mock()
                ),
                Box::new("foo".into())
            )
            .mock(),
            &MODULE_ID.into(),
            &state.types
        ),
        Ok(TypedExpression::FieldElement(FieldElementExpression::Member(
            Box::new(
                StructExpressionInner::Value(vec![TypedExpression::FieldElement(
                    FieldElementExpression::Number(Bn128Field::from(42))
                )])
                .annotate(StructType::new(
                    "".into(),
                    "Foo".into(),
                    vec![StructMember::new("foo".into(), Type::FieldElement)]
                ))
            ),
            "foo".into()
        )))
    );

    // a A value can be defined with members ordered as in the declaration of A

    // struct Foo = { foo: field, bar: bool }
    // Foo foo = Foo { foo: 42, bar: true }

    let (checker, state) = create_module_with_foo(foo_field_bar_bool());

    assert_eq!(
        checker.check_expression::<Bn128Field>(
            Expression::InlineStruct(
                "Foo".into(),
                vec![
                    ("foo".into(), Expression::FieldConstant(number(42)).mock()),
                    ("bar".into(), Expression::BooleanConstant(true).mock())
                ]
            )
            .mock(),
            &MODULE_ID.into(),
            &state.types
        ),
        Ok(TypedExpression::Struct(
            StructExpressionInner::Value(vec![
                TypedExpression::FieldElement(FieldElementExpression::Number(Bn128Field::from(
                    42
                ))),
                TypedExpression::Boolean(BooleanExpression::Value(true))
            ])
            .annotate(StructType::new(
                "".into(),
                "Foo".into(),
                vec![
                    StructMember::new("foo".into(), Type::FieldElement),
                    StructMember::new("bar".into(), Type::Boolean)
                ]
            ))
        ))
    );
}

#[test]
fn semantics_invalid() {
    // accessing an undefined member on a struct should fail

    // struct Foo = { foo: field }
    // Foo { foo: 42 }.bar

    let (checker, state) = create_module_with_foo(foo_field());

    assert_eq!(
        checker
            .check_expression::<Bn128Field>(
                Expression::Member(
                    Box::new(
                        Expression::InlineStruct(
                            "Foo".into(),
                            vec![("foo".into(), Expression::FieldConstant(number(42)).mock())]
                        )
                        .mock()
                    ),
                    Box::new("bar".into())
                )
                .mock(),
                &MODULE_ID.into(),
                &state.types
            )
            .unwrap_err()
            .message,
        "Foo {foo: field} doesn\'t have member bar"
    );

    // a A value cannot be defined with A as id if members are different ids than the declaration
    // a A value cannot be defined with A as id if members are different types than the declaration

    // struct Foo = { foo: field, bar: bool }
    // Foo { foo: 42, baz: bool } // error
    // Foo { foo: 42, baz: 42 } // error

    let (checker, state) = create_module_with_foo(foo_field_bar_bool());

    assert_eq!(
        checker
            .check_expression::<Bn128Field>(
                Expression::InlineStruct(
                    "Foo".into(),
                    vec![
                        ("baz".into(), Expression::BooleanConstant(true).mock()),
                        ("foo".into(), Expression::FieldConstant(number(42)).mock())
                    ]
                )
                .mock(),
                &MODULE_ID.into(),
                &state.types
            )
            .unwrap_err()
            .message,
        "Member bar of struct Foo {foo: field, bar: bool} not found in value Foo {baz: true, foo: 42}"
    );

    assert_eq!(
        checker
            .check_expression::<Bn128Field>(
                Expression::InlineStruct(
                    "Foo".into(),
                    vec![
                        ("bar".into(), Expression::FieldConstant(number(42)).mock()),
                        ("foo".into(), Expression::FieldConstant(number(42)).mock())
                    ]
                )
                .mock(),
                &MODULE_ID.into(),
                &state.types
            )
            .unwrap_err()
            .message,
        "Member bar of struct Foo has type bool, found 42 of type field"
    );
}

#[test]
fn wrong_name() {
    // a A value cannot be defined with B as id, even if A and B have the same members

    let (checker, state) = create_module_with_foo(foo_field());

    assert_eq!(
        checker
            .check_expression::<Bn128Field>(
                Expression::InlineStruct(
                    "Bar".into(),
                    vec![("foo".into(), Expression::FieldConstant(number(42)).mock())]
                )
                .mock(),
                &MODULE_ID.into(),
                &state.types
            )
            .unwrap_err()
            .message,
        "Undefined type Bar"
    );
}

#[test]
fn shuffled() {
    // a A value can be defined with shuffled members compared to the declaration of A

    // struct Foo = { foo: field, bar: bool }
    // Foo foo = Foo { bar: true, foo: 42 }

    let (checker, state) = create_module_with_foo(foo_field_bar_bool());

    assert_eq!(
        checker.check_expression::<Bn128Field>(
            Expression::InlineStruct(
                "Foo".into(),
                vec![
                    ("bar".into(), Expression::BooleanConstant(true).mock()),
                    ("foo".into(), Expression::FieldConstant(number(42)).mock())
                ]
            )
            .mock(),
            &MODULE_ID.into(),
            &state.types
        ),
        Ok(TypedExpression::Struct(
            StructExpressionInner::Value(vec![
                TypedExpression::FieldElement(FieldElementExpression::Number(Bn128Field::from(
                    42
                ))),
                TypedExpression::Boolean(BooleanExpression::Value(true))
            ])
            .annotate(StructType::new(
                "".into(),
                "Foo".into(),
                vec![
                    StructMember::new("foo".into(), Type::FieldElement),
                    StructMember::new("bar".into(), Type::Boolean)
                ]
            ))
        ))
    );
}

#[test]
fn subset() {
    // a A value cannot be defined with A as id if members are a subset of the declaration

    // struct Foo = { foo: field, bar: bool }
    // Foo foo = Foo { foo: 42 }

    let (checker, state) = create_module_with_foo(foo_field_bar_bool());

    assert_eq!(
        checker
            .check_expression::<Bn128Field>(
                Expression::InlineStruct(
                    "Foo".into(),
                    vec![("foo".into(), Expression::FieldConstant(number(42)).mock())]
                )
                .mock(),
                &MODULE_ID.into(),
                &state.types
            )
            .unwrap_err()
            .message,
        "Inline struct Foo {foo: 42} does not match Foo {foo: field, bar: bool}"
    );
}

#[test]
fn identifier() {
    // a = 42
    let a = Assignee::Identifier("a".into()).mock();

    let types: TypeMap = StringMap::new();
    let module_id: String = "".into();
    let mut checker: Checker = Checker::new();
    checker
        .check_statement::<Bn128Field>(
            Statement::Declaration(
                AbsyVariable::new("a", UnresolvedType::FieldElement.mock()).mock(),
            )
            .mock(),
            &module_id,
            &types,
        )
        .unwrap();

    assert_eq!(
        checker.check_assignee::<Bn128Field>(a, &module_id, &types),
        Ok(TypedAssignee::Identifier(Variable::field_element("a")))
    );
}

#[test]
fn array_element() {
    // field[33] a
    // a[2] = 42
    let a = Assignee::Select(
        Box::new(Assignee::Identifier("a".into()).mock()),
        Box::new(RangeOrExpression::Expression(
            Expression::FieldConstant(number(2)).mock(),
        )),
    )
    .mock();

    let types: TypeMap = StringMap::new();
    let module_id: String = "".into();

    let mut checker: Checker = Checker::new();
    checker
        .check_statement::<Bn128Field>(
            Statement::Declaration(
                AbsyVariable::new(
                    "a",
                    UnresolvedType::array(UnresolvedType::FieldElement.mock(), 33).mock(),
                )
                .mock(),
            )
            .mock(),
            &module_id,
            &types,
        )
        .unwrap();

    assert_eq!(
        checker.check_assignee::<Bn128Field>(a, &module_id, &types),
        Ok(TypedAssignee::Select(
            Box::new(TypedAssignee::Identifier(Variable::field_array("a", 33))),
            Box::new(FieldElementExpression::Number(Bn128Field::from(2)))
        ))
    );
}

#[test]
fn array_of_array_element() {
    // field[33][42] a
    // a[1][2]
    let a = Assignee::Select(
        Box::new(
            Assignee::Select(
                Box::new(Assignee::Identifier("a".into()).mock()),
                Box::new(RangeOrExpression::Expression(
                    Expression::FieldConstant(number(1)).mock(),
                )),
            )
            .mock(),
        ),
        Box::new(RangeOrExpression::Expression(
            Expression::FieldConstant(number(2)).mock(),
        )),
    )
    .mock();

    let types: TypeMap = StringMap::new();
    let module_id: String = "".into();
    let mut checker: Checker = Checker::new();
    checker
        .check_statement::<Bn128Field>(
            Statement::Declaration(
                AbsyVariable::new(
                    "a",
                    UnresolvedType::array(
                        UnresolvedType::array(UnresolvedType::FieldElement.mock(), 33).mock(),
                        42,
                    )
                    .mock(),
                )
                .mock(),
            )
            .mock(),
            &module_id,
            &types,
        )
        .unwrap();

    assert_eq!(
        checker.check_assignee::<Bn128Field>(a, &module_id, &types),
        Ok(TypedAssignee::Select(
            Box::new(TypedAssignee::Select(
                Box::new(TypedAssignee::Identifier(Variable::array(
                    "a",
                    Type::array(Type::FieldElement, 33),
                    42
                ))),
                Box::new(FieldElementExpression::Number(Bn128Field::from(1)))
            )),
            Box::new(FieldElementExpression::Number(Bn128Field::from(2)))
        ))
    );
}
