use zokrates_core::embed::FlatEmbed;
use zokrates_core::field::bn128::Bn128Field;
use zokrates_core::typed_absy::expression::{
    ArrayExpression, ArrayExpressionInner, BooleanExpression, FieldElementExpression,
    StructExpression, StructExpressionInner, TypedExpression, UExpression, UExpressionInner,
};
use zokrates_core::typed_absy::identifier::Identifier;
use zokrates_core::typed_absy::parameter::Parameter;
use zokrates_core::typed_absy::program::{
    TypedAssignee, TypedExpressionList, TypedFunction, TypedFunctionSymbol, TypedFunctionSymbols,
    TypedModule, TypedModules, TypedProgram, TypedStatement,
};
use zokrates_core::typed_absy::types::{FunctionKey, Signature, StructType, Type, UBitwidth};
use zokrates_core::typed_absy::variable::Variable;

fn field(name: &str) -> FieldElementExpression<Bn128Field> {
    FieldElementExpression::Identifier(Identifier::from(name))
}

fn number(n: i32) -> FieldElementExpression<Bn128Field> {
    FieldElementExpression::Number(Bn128Field::from(n))
}

fn assign(to: &str, e: FieldElementExpression<Bn128Field>) -> TypedStatement<Bn128Field> {
    TypedStatement::Definition(
        TypedAssignee::Identifier(Variable::field_element(to)),
        TypedExpression::FieldElement(e),
    )
}

fn inner_loop() -> TypedStatement<Bn128Field> {
    TypedStatement::For(
        Variable::field_element("j"),
        number(0),
        number(1),
        vec![assign("x", field("x"))],
    )
}

fn outer_loop() -> TypedStatement<Bn128Field> {
    TypedStatement::For(
        Variable::field_element("i"),
        number(0),
        number(2),
        vec![
            TypedStatement::Assertion(BooleanExpression::Identifier(Identifier::from("b"))),
            inner_loop(),
        ],
    )
}

fn function() -> TypedFunction<Bn128Field> {
    TypedFunction {
        arguments: vec![
            Parameter::private(Variable::field_element("a")),
            Parameter::public(Variable::boolean("b")),
        ],
        statements: vec![
            TypedStatement::Declaration(Variable::field_element("x")),
            assign(
                "x",
                FieldElementExpression::Add(Box::new(field("a")), Box::new(number(1))),
            ),
            outer_loop(),
            TypedStatement::Return(vec![TypedExpression::FieldElement(field("x"))]),
        ],
        signature: Signature::new()
            .inputs(vec![Type::FieldElement, Type::Boolean])
            .outputs(vec![Type::FieldElement]),
    }
}

const FUNCTION: &str = "(private field a, bool b) -> field:\n\
\tfield x\n\
\tx = (a + 1)\n\
\tfor field i in 0..2 do\n\
\t\tassert(b)\n\
\t\tfor field j in 0..1 do\n\
\t\t\tx = x\n\
\t\tendfor\n\
\n\
\tendfor\n\
\n\
\treturn x\n";

#[test]
fn statements_as_text() {
    assert_eq!(
        TypedStatement::<Bn128Field>::Declaration(Variable::field_array("a", 3)).to_string(),
        "field[3] a"
    );
    assert_eq!(
        TypedStatement::<Bn128Field>::Return(vec![]).to_string(),
        "return "
    );
    assert_eq!(
        TypedStatement::Return(vec![
            TypedExpression::FieldElement(field("x")),
            TypedExpression::FieldElement(number(3))
        ])
        .to_string(),
        "return x, 3"
    );
    assert_eq!(assign("x", number(2)).to_string(), "x = 2");
    assert_eq!(
        TypedStatement::<Bn128Field>::Assertion(BooleanExpression::Value(true)).to_string(),
        "assert(true)"
    );
    assert_eq!(
        outer_loop().to_string(),
        "for field i in 0..2 do\n\t\tassert(b)\n\t\tfor field j in 0..1 do\n\t\tx = x\n\tendfor\n\tendfor"
    );
    assert_eq!(
        TypedStatement::Definition(
            TypedAssignee::Member(
                Box::new(TypedAssignee::Select(
                    Box::new(TypedAssignee::Identifier(Variable::field_array("a", 3))),
                    Box::new(field("i")),
                )),
                "m".into(),
            ),
            TypedExpression::FieldElement(number(0)),
        )
        .to_string(),
        "a[i].m = 0"
    );
    let call = TypedExpressionList::FunctionCall(
        FunctionKey::with_id("foo"),
        vec![
            TypedExpression::FieldElement(field("a")),
            TypedExpression::FieldElement(number(1)),
        ],
        vec![Type::FieldElement, Type::FieldElement],
    );
    assert_eq!(call.to_string(), "foo(a, 1)");
    assert_eq!(
        TypedStatement::MultipleDefinition(
            vec![
                TypedAssignee::Identifier(Variable::field_element("x")),
                TypedAssignee::Identifier(Variable::field_element("y")),
            ],
            call,
        )
        .to_string(),
        "x, y = foo(a, 1)"
    );
}

#[test]
fn statements_in_a_function_as_text() {
    assert_eq!(assign("x", number(2)).to_indented_string("\t\t"), "\t\tx = 2");
    assert_eq!(
        inner_loop().to_indented_string("\t"),
        "\tfor field j in 0..1 do\n\t\tx = x\n\tendfor\n"
    );
    assert_eq!(
        TypedStatement::<Bn128Field>::For(
            Variable::field_element("j"),
            number(0),
            number(1),
            vec![]
        )
        .to_indented_string(""),
        "for field j in 0..1 do\nendfor\n"
    );
}

#[test]
fn functions_as_text() {
    assert_eq!(function().to_string(), FUNCTION);
    let nothing: TypedFunction<Bn128Field> = TypedFunction {
        arguments: vec![],
        statements: vec![],
        signature: Signature::new(),
    };
    assert_eq!(nothing.to_string(), "():\n");
    // several results are written without an arrow
    let several: TypedFunction<Bn128Field> = TypedFunction {
        arguments: vec![],
        statements: vec![],
        signature: Signature::new().outputs(vec![Type::FieldElement, Type::Boolean]),
    };
    assert_eq!(several.to_string(), "()field, bool:\n");
}

fn module() -> TypedModule<Bn128Field> {
    let mut functions = TypedFunctionSymbols::new();
    let signature = Signature::new()
        .inputs(vec![Type::FieldElement, Type::Boolean])
        .outputs(vec![Type::FieldElement]);
    assert!(functions.insert(
        FunctionKey::with_id("main").signature(signature),
        TypedFunctionSymbol::Here(function())
    ));
    let imported = Signature::new()
        .inputs(vec![Type::FieldElement])
        .outputs(vec![Type::Boolean]);
    assert!(functions.insert(
        FunctionKey::with_id("bar").signature(imported.clone()),
        TypedFunctionSymbol::There(
            FunctionKey::with_id("foo").signature(imported),
            "other".into()
        )
    ));
    let unpack = Signature::new()
        .inputs(vec![Type::FieldElement])
        .outputs(vec![Type::Boolean, Type::Boolean]);
    assert!(functions.insert(
        FunctionKey::with_id("unpack").signature(unpack.clone()),
        TypedFunctionSymbol::Flat(FlatEmbed::new("unpack", unpack))
    ));
    TypedModule { functions }
}

#[test]
fn modules_and_programs_as_text() {
    let listing = format!(
        "def main{}\nimport foo from \"other\" as bar // with signature (field) -> bool\ndef unpack(field) -> (bool, bool):\n\t// hidden",
        FUNCTION
    );
    assert_eq!(module().to_string(), listing);

    let mut modules: TypedModules<Bn128Field> = TypedModules::new();
    modules.insert("m".into(), module());
    modules.insert(
        "other".into(),
        TypedModule {
            functions: TypedFunctionSymbols::new(),
        },
    );
    let program = TypedProgram {
        modules,
        main: "m".into(),
    };
    let rule = "-".repeat(100);
    assert_eq!(
        program.to_string(),
        format!(
            "| m: |<---- main\n{}\n{}\n{}\n\n| other: |\n{}\n\n{}\n\n",
            rule, listing, rule, rule, rule
        )
    );
    let empty: TypedProgram<Bn128Field> = TypedProgram {
        modules: TypedModules::new(),
        main: "m".into(),
    };
    assert_eq!(empty.to_string(), "");
}

#[test]
fn expressions_by_kind() {
    let f = || TypedExpression::FieldElement(number(1));
    let b = || TypedExpression::<Bn128Field>::Boolean(BooleanExpression::Value(true));
    let u = || {
        TypedExpression::<Bn128Field>::Uint(UExpressionInner::Value(7).annotate(UBitwidth::B8))
    };
    let a = || {
        TypedExpression::<Bn128Field>::Array(
            ArrayExpressionInner::Identifier(Identifier::from("a")).annotate(Type::FieldElement, 2),
        )
    };
    assert_eq!(FieldElementExpression::try_from(f()), Ok(number(1)));
    assert_eq!(FieldElementExpression::try_from(b()), Err(()));
    assert_eq!(
        BooleanExpression::try_from(b()),
        Ok(BooleanExpression::Value(true))
    );
    assert_eq!(BooleanExpression::try_from(u()), Err(()));
    assert_eq!(
        UExpression::try_from(u()),
        Ok(UExpressionInner::Value(7).annotate(UBitwidth::B8))
    );
    assert_eq!(UExpression::try_from(f()), Err(()));
    assert_eq!(
        ArrayExpression::try_from(a()),
        Ok(ArrayExpressionInner::Identifier(Identifier::from("a")).annotate(Type::FieldElement, 2))
    );
    assert_eq!(ArrayExpression::try_from(f()), Err(()));
    assert!(StructExpression::try_from(a()).is_err());

    assert_eq!(TypedExpression::from_field(number(1)), f());
    assert_eq!(
        TypedExpression::from_boolean(BooleanExpression::Value(true)),
        b()
    );
    assert_eq!(
        TypedExpression::from_uint(UExpressionInner::Value(7).annotate(UBitwidth::B8)),
        u()
    );
    assert_eq!(
        TypedExpression::from_array(
            ArrayExpressionInner::Identifier(Identifier::from("a")).annotate(Type::FieldElement, 2)
        ),
        a()
    );
    let foo = StructType::new("".into(), "Foo".into(), vec![]);
    let s = || StructExpressionInner::<Bn128Field>::Identifier(Identifier::from("s")).annotate(foo.clone());
    assert_eq!(
        TypedExpression::from_struct(s()),
        TypedExpression::Struct(s())
    );
    assert_eq!(StructExpression::try_from(TypedExpression::Struct(s())), Ok(s()));
}
