use num_bigint::BigUint;
use zokrates_core::absy::node::NodeValue;
use zokrates_core::absy::types::{UnresolvedSignature, UnresolvedType};
use zokrates_core::absy::{
    Expression, ExpressionList, Function, FunctionNode, Module, Modules, Parameter,
    SpreadOrExpression, Statement, StatementNode, StructDefinition, StructDefinitionField,
    StructDefinitionNode, Symbol, SymbolDeclaration, SymbolImport, Variable,
};
use zokrates_core::collections::StringMap;
use zokrates_core::field::bn128::Bn128Field;
use zokrates_core::field::Field;
use zokrates_core::semantics::scope::Checker;
use zokrates_core::semantics::{State, TypeMap};
use zokrates_core::typed_absy::program::{
    TypedFunctionSymbol, TypedFunctionSymbols, TypedModule,
};
use zokrates_core::typed_absy::types::{FunctionKey, Signature, Type};

const MODULE_ID: &str = "";

fn number(n: u32) -> Vec<u8> {
    BigUint::from(n).to_bytes_le()
}

fn modules(list: Vec<(&str, Module)>) -> Modules {
    let mut modules: Modules = StringMap::new();
    for (id, module) in list {
        modules.insert(id.to_string(), module);
    }
    modules
}

/// Helper function to create ((): return)
fn function0() -> FunctionNode {
    let statements: Vec<StatementNode> = vec![Statement::Return(
        ExpressionList {
            expressions: vec![],
        }
        .mock(),
    )
    .mock()];

    let arguments = vec![];

    let signature = UnresolvedSignature::new();

    Function {
        arguments,
        statements,
        signature,
    }
    .mock()
}

/// Helper function to create ((private field a): return)
fn function1() -> FunctionNode {
    let statements: Vec<StatementNode> = vec![Statement::Return(
        ExpressionList {
            expressions: vec![],
        }
        .mock(),
    )
    .mock()];

    let arguments = vec![Parameter {
        id: Variable::new("a", UnresolvedType::FieldElement.mock()).mock(),
        private: true,
    }
    .mock()];

    let signature = UnresolvedSignature::new().inputs(vec![UnresolvedType::FieldElement.mock()]);

    Function {
        arguments,
        statements,
        signature,
    }
    .mock()
}

fn struct0() -> StructDefinitionNode {
    StructDefinition { fields: vec![] }.mock()
}

fn struct1() -> StructDefinitionNode {
    StructDefinition {
        fields: vec![StructDefinitionField {
            id: "foo".into(),
            ty: UnresolvedType::FieldElement.mock(),
        }
        .mock()],
    }
    .mock()
}

#[test]
fn field_in_range() {
    let types: TypeMap = StringMap::new();
    let module_id: String = "".into();

    let expr = Expression::FieldConstant(Bn128Field::max_value().to_le_bytes()).mock();
    assert!(Checker::new()
        .check_expression::<Bn128Field>(expr, &module_id, &types)
        .is_ok());
}

#[test]
fn field_overflow() {
    let types: TypeMap = StringMap::new();
    let module_id: String = "".into();

    let value = BigUint::from_bytes_le(&Bn128Field::max_value().to_le_bytes()) + 1u32;
    let expr = Expression::FieldConstant(value.to_bytes_le()).mock();

    assert!(Checker::new()
        .check_expression::<Bn128Field>(expr, &module_id, &types)
        .is_err());
}

#[test]
fn field_overflow_message() {
    let types: TypeMap = StringMap::new();
    let module_id: String = "".into();

    let value = BigUint::from_bytes_le(&Bn128Field::max_value().to_le_bytes()) + 1u32;
    let expr = Expression::FieldConstant(value.to_bytes_le()).mock();

    assert_eq!(
        Checker::new()
            .check_expression::<Bn128Field>(expr, &module_id, &types)
            .unwrap_err()
            .message,
        "Field constant not in the representable range [0, 21888242871839275222246405745257275088548364400416034343698204186575808495616]"
    );
}

#[test]
fn element_type_mismatch() {
    let types: TypeMap = StringMap::new();
    let module_id: String = "".into();
    // [3, true]
    let a = Expression::InlineArray(vec![
        SpreadOrExpression::Expression(Expression::FieldConstant(number(3)).mock()),
        SpreadOrExpression::Expression(Expression::BooleanConstant(true).mock()),
    ])
    .mock();
    assert!(Checker::new()
        .check_expression::<Bn128Field>(a, &module_id, &types)
        .is_err());

    // [[0], [0, 0]]
    let a = Expression::InlineArray(vec![
        SpreadOrExpression::Expression(
            Expression::InlineArray(vec![SpreadOrExpression::Expression(
                Expression::FieldConstant(number(0)).mock(),
            )])
            .mock(),
        ),
        SpreadOrExpression::Expression(
            Expression::InlineArray(vec![
                SpreadOrExpression::Expression(Expression::FieldConstant(number(0)).mock()),
                SpreadOrExpression::Expression(Expression::FieldConstant(number(0)).mock()),
            ])
            .mock(),
        ),
    ])
    .mock();
    assert!(Checker::new()
        .check_expression::<Bn128Field>(a, &module_id, &types)
        .is_err());

    // [[0], true]
    let a = Expression::InlineArray(vec![
        SpreadOrExpression::Expression(
            Expression::InlineArray(vec![SpreadOrExpression::Expression(
                Expression::FieldConstant(number(0)).mock(),
            )])
            .mock(),
        ),
        SpreadOrExpression::Expression(
            Expression::InlineArray(vec![SpreadOrExpression::Expression(
                Expression::BooleanConstant(true).mock(),
            )])
            .mock(),
        ),
    ])
    .mock();
    assert!(Checker::new()
        .check_expression::<Bn128Field>(a, &module_id, &types)
        .is_err());
}

#[test]
fn imported_function() {
    // foo.zok
    // def main():
    // 		return

    // bar.zok
    // from "./foo.zok" import main

    // after semantic check, `bar` should import a checked function

    let foo: Module = Module {
        symbols: vec![SymbolDeclaration {
            id: "main".into(),
            symbol: Symbol::HereFunction(function0()),
        }
        .mock()],
        imports: vec![],
    };

    let bar: Module = Module {
        symbols: vec![SymbolDeclaration {
            id: "main".into(),
            symbol: Symbol::There(SymbolImport::with_id_in_module("main", "foo").mock()),
        }
        .mock()],
        imports: vec![],
    };

    let mut state = State::<Bn128Field>::new(modules(vec![("foo", foo), ("bar", bar)]));

    let mut checker = Checker::new();

    assert_eq!(checker.check_module(&"bar".into(), &mut state), Ok(()));
    let mut functions = TypedFunctionSymbols::new();
    functions.insert(
        FunctionKey::with_id("main").signature(Signature::new()),
        TypedFunctionSymbol::There(
            FunctionKey::with_id("main").signature(Signature::new()),
            "foo".into(),
        ),
    );
    assert_eq!(
        state.typed_modules.get("bar"),
        Some(&TypedModule { functions })
    );
}

#[test]
fn duplicate_function_declaration() {
    // def foo():
    //   return
    // def foo():
    //   return
    //
    // should fail

    let module = Module {
        symbols: vec![
            SymbolDeclaration {
                id: "foo".into(),
                symbol: Symbol::HereFunction(function0()),
            }
            .mock(),
            SymbolDeclaration {
                id: "foo".into(),
                symbol: Symbol::HereFunction(function0()),
            }
            .mock(),
        ],
        imports: vec![],
    };

    let mut state = State::<Bn128Field>::new(modules(vec![(MODULE_ID, module)]));

    let mut checker = Checker::new();
    assert_eq!(
        checker
            .check_module(&MODULE_ID.into(), &mut state)
            .unwrap_err()[0]
            .inner
            .message,
        "foo conflicts with another symbol"
    );
}

#[test]
fn overloaded_function_declaration() {
    // def foo():
    //   return
    // def foo(a):
    //   return
    //
    // should succeed as overloading is allowed

    let module = Module {
        symbols: vec![
            SymbolDeclaration {
                id: "foo".into(),
                symbol: Symbol::HereFunction(function0()),
            }
            .mock(),
            SymbolDeclaration {
                id: "foo".into(),
                symbol: Symbol::HereFunction(function1()),
            }
            .mock(),
        ],
        imports: vec![],
    };

    let mut state = State::<Bn128Field>::new(modules(vec![(MODULE_ID, module)]));

    let mut checker = Checker::new();
    assert_eq!(checker.check_module(&MODULE_ID.into(), &mut state), Ok(()));
    assert!(state
        .typed_modules
        .get(MODULE_ID)
        .unwrap()
        .functions
        .contains_key(&FunctionKey::with_id("foo").signature(Signature::new())));
    assert!(state
        .typed_modules
        .get(MODULE_ID)
        .unwrap()
        .functions
        .contains_key(
            &FunctionKey::with_id("foo")
                .signature(Signature::new().inputs(vec![Type::FieldElement]))
        ))
}

#[test]
fn duplicate_type_declaration() {
    // struct Foo {}
    // struct Foo { foo: field }
    //
    // should fail

    let module: Module = Module {
        symbols: vec![
            SymbolDeclaration {
                id: "foo".into(),
                symbol: Symbol::HereType(struct0()),
            }
            .mock(),
            SymbolDeclaration {
                id: "foo".into(),
                symbol: Symbol::HereType(struct1()),
            }
            .mock(),
        ],
        imports: vec![],
    };

    let mut state = State::<Bn128Field>::new(modules(vec![("main", module)]));

    let mut checker = Checker::new();
    assert_eq!(
        checker
            .check_module(&"main".into(), &mut state)
            .unwrap_err()[0]
            .inner
            .message,
        "foo conflicts with another symbol"
    );
}

#[test]
fn type_function_conflict() {
    // struct foo {}
    // def foo():
    //   return
    //
    // should fail

    let module = Module {
        symbols: vec![
            SymbolDeclaration {
                id: "foo".into(),
                symbol: Symbol::HereFunction(function0()),
            }
            .mock(),
            SymbolDeclaration {
                id: "foo".into(),
                symbol: Symbol::HereType(StructDefinition { fields: vec![] }.mock()),
            }
            .mock(),
        ],
        imports: vec![],
    };

    let mut state = State::<Bn128Field>::new(modules(vec![("main", module)]));

    let mut checker = Checker::new();
    assert_eq!(
        checker
            .check_module(&"main".into(), &mut state)
            .unwrap_err()[0]
            .inner
            .message,
        "foo conflicts with another symbol"
    );
}

#[test]
fn type_imported_function_conflict() {
    // import first

    // // bar.code
    // def main(): return
    //
    // // main.code
    // import main from "bar" as foo
    // struct foo {}
    //
    // should fail

    let bar = Module::with_symbols(vec![SymbolDeclaration {
        id: "main".into(),
        symbol: Symbol::HereFunction(function0()),
    }
    .mock()]);

    let main = Module {
        symbols: vec![
            SymbolDeclaration {
                id: "foo".into(),
                symbol: Symbol::There(SymbolImport::with_id_in_module("main", "bar").mock()),
            }
            .mock(),
            SymbolDeclaration {
                id: "foo".into(),
                symbol: Symbol::HereType(struct0()),
            }
            .mock(),
        ],
        imports: vec![],
    };

    let mut state = State::<Bn128Field>::new(modules(vec![(MODULE_ID, main), ("bar", bar)]));

    let mut checker = Checker::new();
    assert_eq!(
        checker
            .check_module(&MODULE_ID.into(), &mut state)
            .unwrap_err()[0]
            .inner
            .message,
        "foo conflicts with another symbol"
    );

    // type declaration first

    // // bar.code
    // def main(): return
    //
    // // main.code
    // struct foo {}
    // import main from "bar" as foo
    //
    // should fail

    let bar = Module::with_symbols(vec![SymbolDeclaration {
        id: "main".into(),
        symbol: Symbol::HereFunction(function0()),
    }
    .mock()]);

    let main = Module {
        symbols: vec![
            SymbolDeclaration {
                id: "foo".into(),
                symbol: Symbol::HereType(struct0()),
            }
            .mock(),
            SymbolDeclaration {
                id: "foo".into(),
                symbol: Symbol::There(SymbolImport::with_id_in_module("main", "bar").mock()),
            }
            .mock(),
        ],
        imports: vec![],
    };

    let mut state = State::<Bn128Field>::new(modules(vec![(MODULE_ID, main), ("bar", bar)]));

    let mut checker = Checker::new();
    assert_eq!(
        checker
            .check_module(&MODULE_ID.into(), &mut state)
            .unwrap_err()[0]
            .inner
            .message,
        "foo conflicts with another symbol"
    );
}

#[test]
fn import_of_missing_symbol() {
    let bar = Module::with_symbols(vec![SymbolDeclaration {
        id: "main".into(),
        symbol: Symbol::HereFunction(function0()),
    }
    .mock()]);

    let main = Module::with_symbols(vec![SymbolDeclaration {
        id: "foo".into(),
        symbol: Symbol::There(SymbolImport::with_id_in_module("nothing", "bar").mock()),
    }
    .mock()]);

    let mut state = State::<Bn128Field>::new(modules(vec![("main", main), ("bar", bar)]));

    let mut checker = Checker::new();
    assert_eq!(
        checker
            .check_module(&"main".into(), &mut state)
            .unwrap_err()[0]
            .inner
            .message,
        "Could not find symbol nothing in module bar"
    );
}

#[test]
fn struct_renamed_on_import() {
    // module "a" declares struct Foo { x: field }; module "b" imports Foo as Bar
    let a = Module::with_symbols(vec![SymbolDeclaration {
        id: "Foo".into(),
        symbol: Symbol::HereType(
            StructDefinition {
                fields: vec![StructDefinitionField {
                    id: "x".into(),
                    ty: UnresolvedType::FieldElement.mock(),
                }
                .mock()],
            }
            .mock(),
        ),
    }
    .mock()]);

    let b = Module::with_symbols(vec![SymbolDeclaration {
        id: "Bar".into(),
        symbol: Symbol::There(SymbolImport::with_id_in_module("Foo", "a").mock()),
    }
    .mock()]);

    let mut state = State::<Bn128Field>::new(modules(vec![("a", a), ("b", b)]));

    assert_eq!(Checker::new().check_module(&"b".into(), &mut state), Ok(()));
    let ty = state.types.get("b").unwrap().get("Bar").unwrap();
    match ty {
        Type::Struct(s) => {
            assert_eq!(s.name(), "Bar");
            assert_eq!(s.module(), "b");
            assert_eq!(s.canonical_location.name, "Foo");
            assert_eq!(s.canonical_location.module, "a");
            assert_eq!(s.members.len(), 1);
            assert_eq!(s.members[0].id, "x");
            assert_eq!(*s.members[0].ty, Type::FieldElement);
        }
        _ => panic!("expected a struct type"),
    }
    assert_eq!(ty.to_string(), "Bar {x: field}");
}
