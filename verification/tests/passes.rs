use zokrates_core::field::bn128::Bn128Field;
use zokrates_core::static_analysis::variable_read_remover::VariableReadRemover;
use zokrates_core::typed_absy::abi::{Abi, AbiInput};
use zokrates_core::typed_absy::expression::{
    ArrayExpressionInner, BooleanExpression, FieldElementExpression, TypedExpression,
};
use zokrates_core::typed_absy::identifier::Identifier;
use zokrates_core::typed_absy::parameter::Parameter;
use zokrates_core::typed_absy::program::{
    TypedAssignee, TypedFunction, TypedFunctionSymbol, TypedFunctionSymbols, TypedModule,
    TypedModules, TypedProgram, TypedStatement,
};
use zokrates_core::typed_absy::typed::IfElse;
use zokrates_core::typed_absy::types::{FunctionKey, Signature, Type};
use zokrates_core::typed_absy::variable::Variable;
use zokrates_core::typed_absy::walk::visit_statement;

fn index_is(name: &str, k: i32) -> BooleanExpression<Bn128Field> {
    BooleanExpression::FieldEq(
        Box::new(FieldElementExpression::Identifier(Identifier::from(name))),
        Box::new(FieldElementExpression::Number(Bn128Field::from(k))),
    )
}

#[test]
fn select() {
    // b = a[i]

    // ->

    // i <= 1 == true
    // b = if i == 0 then a[0] else if i == 1 then a[1] else 0

    let access: TypedStatement<Bn128Field> = TypedStatement::Definition(
        TypedAssignee::Identifier(Variable::field_element("b")),
        TypedExpression::FieldElement(FieldElementExpression::Select(
            Box::new(
                ArrayExpressionInner::Identifier(Identifier::from("a"))
                    .annotate(Type::FieldElement, 2),
            ),
            Box::new(FieldElementExpression::Identifier(Identifier::from("i"))),
        )),
    );

    assert_eq!(
        visit_statement(&mut VariableReadRemover::new(), access),
        vec![
            TypedStatement::Assertion(BooleanExpression::Or(
                Box::new(index_is("i", 0)),
                Box::new(index_is("i", 1))
            )),
            TypedStatement::Definition(
                TypedAssignee::Identifier(Variable::field_element("b")),
                TypedExpression::FieldElement(FieldElementExpression::if_else(
                    index_is("i", 0),
                    FieldElementExpression::Select(
                        Box::new(
                            ArrayExpressionInner::Identifier(Identifier::from("a"))
                                .annotate(Type::FieldElement, 2)
                        ),
                        Box::new(FieldElementExpression::Number(Bn128Field::from(0))),
                    ),
                    FieldElementExpression::Select(
                        Box::new(
                            ArrayExpressionInner::Identifier(Identifier::from("a"))
                                .annotate(Type::FieldElement, 2)
                        ),
                        Box::new(FieldElementExpression::Number(Bn128Field::from(1))),
                    )
                ))
            )
        ]
    );
}

#[test]
fn select_at_constant_is_kept() {
    let access: TypedStatement<Bn128Field> = TypedStatement::Definition(
        TypedAssignee::Identifier(Variable::field_element("b")),
        TypedExpression::FieldElement(FieldElementExpression::Select(
            Box::new(
                ArrayExpressionInner::Identifier(Identifier::from("a"))
                    .annotate(Type::FieldElement, 2),
            ),
            Box::new(FieldElementExpression::Number(Bn128Field::from(1))),
        )),
    );
    let expected: TypedStatement<Bn128Field> = TypedStatement::Definition(
        TypedAssignee::Identifier(Variable::field_element("b")),
        TypedExpression::FieldElement(FieldElementExpression::Select(
            Box::new(
                ArrayExpressionInner::Identifier(Identifier::from("a"))
                    .annotate(Type::FieldElement, 2),
            ),
            Box::new(FieldElementExpression::Number(Bn128Field::from(1))),
        )),
    );
    assert_eq!(
        visit_statement(&mut VariableReadRemover::new(), access),
        vec![expected]
    );
}

fn main_program() -> TypedProgram<Bn128Field> {
    let mut functions = TypedFunctionSymbols::new();
    functions.insert(
        FunctionKey::with_id("main"),
        TypedFunctionSymbol::Here(TypedFunction {
            arguments: vec![
                Parameter {
                    id: Variable::field_element("a"),
                    private: true,
                },
                Parameter {
                    id: Variable::boolean("b"),
                    private: false,
                },
            ],
            statements: vec![],
            signature: Signature::new()
                .inputs(vec![Type::FieldElement, Type::Boolean])
                .outputs(vec![Type::FieldElement]),
        }),
    );

    let mut modules: TypedModules<Bn128Field> = TypedModules::new();
    modules.insert("main".into(), TypedModule { functions });

    TypedProgram {
        main: "main".into(),
        modules,
    }
}

#[test]
fn generate_abi_from_typed_ast() {
    let typed_ast: TypedProgram<Bn128Field> = main_program();

    let abi: Abi = typed_ast.abi();
    let expected_abi = Abi {
        inputs: vec![
            AbiInput {
                name: String::from("a"),
                public: false,
                ty: Type::FieldElement,
            },
            AbiInput {
                name: String::from("b"),
                public: true,
                ty: Type::Boolean,
            },
        ],
        outputs: vec![Type::FieldElement],
    };

    assert_eq!(expected_abi, abi);
    assert_eq!(
        abi.signature(),
        Signature::new()
            .inputs(vec![Type::FieldElement, Type::Boolean])
            .outputs(vec![Type::FieldElement])
    );
}

#[test]
fn remover_leaves_program_without_reads() {
    let program = main_program();
    let expected = main_program();
    assert_eq!(VariableReadRemover::apply(program), expected);
}

#[test]
fn reads_inside_a_read_go_as_well() {
    // c = a[b[j]], with a and b of size 2
    let a = || ArrayExpressionInner::<Bn128Field>::Identifier(Identifier::from("a"))
        .annotate(Type::FieldElement, 2);
    let b = || ArrayExpressionInner::<Bn128Field>::Identifier(Identifier::from("b"))
        .annotate(Type::FieldElement, 2);
    let number = |k: i32| FieldElementExpression::Number(Bn128Field::from(k));
    let at = |array: zokrates_core::typed_absy::expression::ArrayExpression<Bn128Field>, k: i32| {
        FieldElementExpression::Select(Box::new(array), Box::new(number(k)))
    };
    let is = |i: FieldElementExpression<Bn128Field>, k: i32| {
        BooleanExpression::FieldEq(Box::new(i), Box::new(number(k)))
    };
    let access: TypedStatement<Bn128Field> = TypedStatement::Definition(
        TypedAssignee::Identifier(Variable::field_element("c")),
        TypedExpression::FieldElement(FieldElementExpression::Select(
            Box::new(a()),
            Box::new(FieldElementExpression::Select(
                Box::new(b()),
                Box::new(FieldElementExpression::Identifier(Identifier::from("j"))),
            )),
        )),
    );
    // what b[j] becomes
    let inner =
        || FieldElementExpression::if_else(index_is("j", 0), at(b(), 0), at(b(), 1));
    assert_eq!(
        visit_statement(&mut VariableReadRemover::new(), access),
        vec![
            TypedStatement::Assertion(BooleanExpression::Or(
                Box::new(index_is("j", 0)),
                Box::new(index_is("j", 1))
            )),
            TypedStatement::Assertion(BooleanExpression::Or(
                Box::new(is(inner(), 0)),
                Box::new(is(inner(), 1))
            )),
            TypedStatement::Definition(
                TypedAssignee::Identifier(Variable::field_element("c")),
                TypedExpression::FieldElement(FieldElementExpression::if_else(
                    is(inner(), 0),
                    at(a(), 0),
                    at(a(), 1)
                ))
            )
        ]
    );
}
