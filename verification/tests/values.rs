use num_bigint::BigUint;
use zokrates_core::absy::node::{Node, NodeValue};
use zokrates_core::absy::types::UnresolvedType;
use zokrates_core::collections::StringMap;
use zokrates_core::embed::FlatEmbed;
use zokrates_core::field::bn128::Bn128Field;
use zokrates_core::field::Field;
use zokrates_core::flat_absy::FlatVariable;
use zokrates_core::natural::u128_to_le_bytes;
use zokrates_core::parser::Position;
use zokrates_core::semantics::query::FunctionQuery;
use zokrates_core::semantics::ErrorInner;
use zokrates_core::text::{u128_to_dec, u128_to_hex, usize_to_dec};
use zokrates_core::typed_absy::identifier::{CoreIdentifier, Identifier};
use zokrates_core::typed_absy::parameter::Parameter;
use zokrates_core::typed_absy::program::{
    TypedFunction, TypedFunctionSymbol, TypedFunctionSymbols, TypedModule, TypedModules,
};
use zokrates_core::typed_absy::types::{
    FunctionKey, Signature, StructMember, StructType, Type, UBitwidth,
};
use zokrates_core::typed_absy::variable::Variable;

const MODULUS: &str =
    "21888242871839275222246405745257275088548364400416034343698204186575808495617";

fn big(f: &Bn128Field) -> BigUint {
    BigUint::from_bytes_le(&f.to_le_bytes())
}

fn field(n: &BigUint) -> Bn128Field {
    Bn128Field::try_from_le_bytes(&n.to_bytes_le()).unwrap()
}

#[test]
fn numerals() {
    assert_eq!(usize_to_dec(0), "0");
    assert_eq!(usize_to_dec(907), "907");
    assert_eq!(u128_to_dec(u128::MAX), "340282366920938463463374607431768211455");
    assert_eq!(u128_to_hex(0), "0");
    assert_eq!(u128_to_hex(0xdeadbeef), "deadbeef");
    assert_eq!(
        BigUint::from_bytes_le(&u128_to_le_bytes(0x0102030405060708090a0b0c0d0e0f10)),
        BigUint::from(0x0102030405060708090a0b0c0d0e0f10u128)
    );
}

#[test]
fn field_constants() {
    let p = BigUint::parse_bytes(MODULUS.as_bytes(), 10).unwrap();
    assert_eq!(big(&Bn128Field::zero()), BigUint::from(0u32));
    assert_eq!(big(&Bn128Field::one()), BigUint::from(1u32));
    assert_eq!(big(&Bn128Field::min_value()), BigUint::from(0u32));
    assert_eq!(big(&Bn128Field::max_value()), &p - 1u32);
    assert_eq!(big(&Bn128Field::from(-1)), &p - 1u32);
    assert_eq!(big(&Bn128Field::from_usize(77)), BigUint::from(77u32));
    assert!(Bn128Field::try_from_le_bytes(&p.to_bytes_le()).is_none());
    assert!(Bn128Field::try_from_le_bytes(&(&p - 1u32).to_bytes_le()).is_some());
    // zero bytes at the end do not change the number
    let mut padded = (&p - 1u32).to_bytes_le();
    padded.extend(vec![0u8; 40]);
    assert_eq!(
        Bn128Field::try_from_le_bytes(&padded),
        Some(Bn128Field::max_value())
    );
    let mut beyond = vec![0u8; 40];
    beyond.push(1);
    assert!(Bn128Field::try_from_le_bytes(&beyond).is_none());
    assert_eq!(Bn128Field::try_from_le_bytes(&vec![]), Some(Bn128Field::zero()));
}

#[test]
fn field_arithmetic() {
    let p = BigUint::parse_bytes(MODULUS.as_bytes(), 10).unwrap();
    let a = BigUint::parse_bytes(b"12345678901234567890123456789012345678901234567890", 10).unwrap();
    let b = BigUint::parse_bytes(
        b"21888242871839275222246405745257275088548364400416034343698204186575808495000",
        10,
    )
    .unwrap();
    let (fa, fb) = (field(&a), field(&b));
    assert_eq!(big(&fa.add(&fb)), (&a + &b) % &p);
    assert_eq!(big(&fa.sub(&fb)), (&a + &p - &b) % &p);
    assert_eq!(big(&fb.sub(&fa)), (&b - &a) % &p);
    assert_eq!(big(&fa.mul(&fb)), (&a * &b) % &p);
    let inverse = fa.inverse_mul().unwrap();
    assert_eq!(fa.mul(&inverse), Bn128Field::one());
    assert_eq!(big(&inverse), a.modpow(&(&p - 2u32), &p));
    assert!(Bn128Field::zero().inverse_mul().is_none());
    assert!(Bn128Field::zero().is_zero());
    assert!(!fa.is_zero());
    assert!(fa.same(&fa.duplicate()));
    assert!(!fa.same(&fb));
    assert_eq!(Bn128Field::from(12).to_usize(), Some(12));
    assert_eq!(fa.to_usize(), None);
}

#[test]
fn field_as_text() {
    assert_eq!(Bn128Field::from(0).to_dec_string(), "0");
    assert_eq!(Bn128Field::from(1234567).to_dec_string(), "1234567");
    assert_eq!(
        Bn128Field::max_value().to_dec_string(),
        "21888242871839275222246405745257275088548364400416034343698204186575808495616"
    );
    assert_eq!(Bn128Field::from(5).to_compact_dec_string(), "5");
    assert_eq!(Bn128Field::from(-5).to_compact_dec_string(), "(-5)");
    assert_eq!(Bn128Field::max_value().to_compact_dec_string(), "(-1)");
}

#[test]
fn wires() {
    assert!(FlatVariable::one().is_one());
    assert!(!FlatVariable::new(0).is_one());
    assert_eq!(FlatVariable::one().to_string(), "~one");
    assert_eq!(FlatVariable::new(0).to_string(), "_0");
    assert_eq!(FlatVariable::new(42).to_string(), "_42");
    assert!(FlatVariable::one() < FlatVariable::new(0));
}

fn foo_type() -> StructType {
    StructType::new(
        "m".into(),
        "Foo".into(),
        vec![
            StructMember::new("a".into(), Type::FieldElement),
            StructMember::new("b".into(), Type::array(Type::Uint(UBitwidth::B16), 3)),
        ],
    )
}

#[test]
fn types() {
    assert_eq!(Type::FieldElement.to_string(), "field");
    assert_eq!(Type::Boolean.to_string(), "bool");
    assert_eq!(Type::uint(UBitwidth::B32).to_string(), "u32");
    assert_eq!(
        Type::array(Type::array(Type::Boolean, 2), 5).to_string(),
        "bool[2][5]"
    );
    assert_eq!(Type::struc(foo_type()).to_string(), "Foo {a: field, b: u16[3]}");
    assert_eq!(foo_type().len(), 2);
    assert_eq!(foo_type().find_member("b").map(|m| m.id.clone()), Some("b".to_string()));
    assert!(foo_type().find_member("c").is_none());

    // a struct type is told apart by where it was declared, not by the name it is known under
    let renamed = foo_type().renamed("n".into(), "Bar".into());
    assert_eq!(renamed.name(), "Bar");
    assert_eq!(renamed.module(), "n");
    assert_eq!(Type::struc(renamed), Type::struc(foo_type()));
    let elsewhere = StructType::new("n".into(), "Foo".into(), vec![]);
    assert_ne!(Type::struc(elsewhere), Type::struc(foo_type()));
    assert_ne!(Type::array(Type::Boolean, 2), Type::array(Type::Boolean, 3));
    assert_eq!(Type::struc(foo_type()).clone(), Type::struc(foo_type()));

    assert_eq!(UBitwidth::from_usize(8), Some(UBitwidth::B8));
    assert_eq!(UBitwidth::from_usize(16), Some(UBitwidth::B16));
    assert_eq!(UBitwidth::from_usize(32), Some(UBitwidth::B32));
    assert_eq!(UBitwidth::from_usize(64), None);
    assert_eq!(UBitwidth::B16.to_usize(), 16);
}

#[test]
fn signatures_and_queries() {
    let s = Signature::new()
        .inputs(vec![Type::FieldElement, Type::Boolean])
        .outputs(vec![Type::FieldElement]);
    assert_eq!(s.to_string(), "(field, bool) -> field");
    assert_eq!(Signature::new().to_string(), "()");
    assert_eq!(
        Signature::new()
            .outputs(vec![Type::FieldElement, Type::Boolean])
            .to_string(),
        "() -> (field, bool)"
    );
    assert_eq!(s.clone(), s);

    let key = FunctionKey::with_id("f").signature(s.clone());
    let renamed = key.clone().id("g");
    assert_eq!(renamed.id, "g");
    assert_eq!(renamed.signature, s);

    let query = FunctionQuery::new(
        "f",
        &vec![Type::FieldElement, Type::Boolean],
        &vec![None],
    );
    assert_eq!(query.to_string(), "(field, bool) -> _");
    assert!(query.match_func(&key));
    assert!(!query.match_func(&renamed));
    assert_eq!(query.match_funcs(&vec![renamed, key.clone()]), Some(key.clone()));

    let exact = FunctionQuery::new(
        "f",
        &vec![Type::FieldElement, Type::Boolean],
        &vec![Some(Type::Boolean)],
    );
    assert!(!exact.match_func(&key));
    let two = FunctionQuery::new("f", &vec![], &vec![Some(Type::Boolean), None]);
    assert_eq!(two.to_string(), "() -> (bool, _)");
    assert_eq!(FunctionQuery::new("f", &vec![], &vec![]).to_string(), "()");
}

#[test]
fn identifiers() {
    assert_eq!(Identifier::from("a").to_string(), "a");
    assert_eq!(
        Identifier::from_core(CoreIdentifier::Internal("tmp".into(), 3)).to_string(),
        "#INTERNAL#_tmp_3"
    );
    assert_eq!(
        Identifier::from_core(CoreIdentifier::Call(255, 1)).to_string(),
        "ff_1"
    );
    assert_eq!(Identifier::from("a").version(2).to_string(), "_a_2");
    assert_eq!(
        Identifier::from("a")
            .stack(vec![("m".into(), 7, 1), ("n".into(), 8, 2)])
            .to_string(),
        "m_7_1_n_8_2_a_0"
    );
    assert_eq!(Identifier::from("a").version(2).clone(), Identifier::from("a").version(2));
    assert_eq!(Variable::field_array("a", 3).to_string(), "field[3] a");
    assert_eq!(
        Parameter::private(Variable::boolean("b")).to_string(),
        "private bool b"
    );
    assert_eq!(Parameter::public(Variable::boolean("b")).to_string(), "bool b");
}

#[test]
fn nodes_and_positions() {
    let node = UnresolvedType::Boolean.at(3, 7, 4);
    assert_eq!(
        node.pos(),
        (Position { line: 3, col: 7 }, Position { line: 3, col: 11 })
    );
    let node = Node::from(UnresolvedType::Boolean);
    assert_eq!(node.pos(), (Position::mock(), Position::mock()));
    let start = Position { line: 1, col: 2 };
    let end = Position { line: 5, col: 9 };
    assert_eq!(UnresolvedType::Boolean.start_end(start, end).pos(), (start, end));
    assert_eq!(Position { line: 10, col: 5 }.col(-3), Position { line: 10, col: 2 });
    assert_eq!(Position { line: 10, col: 5 }.to_string(), "10:5");
    assert_eq!(
        ErrorInner::new(Some((start, end)), "wrong".into()).to_string(),
        "1:2\n\twrong"
    );
    assert_eq!(ErrorInner::new(None, "wrong".into()).to_string(), "?\n\twrong");
    assert_eq!(
        UnresolvedType::array(UnresolvedType::User("Foo".into()).mock(), 2).to_string(),
        "Foo[2]"
    );
}

#[test]
fn maps() {
    let mut map: StringMap<u32> = StringMap::new();
    assert_eq!(map.insert("a".into(), 1), None);
    assert_eq!(map.insert("b".into(), 2), None);
    assert_eq!(map.insert("a".into(), 3), Some(1));
    assert_eq!(map.len(), 2);
    assert_eq!(map.get("a"), Some(&3));
    assert_eq!(map.find("b"), Some(1));
    assert!(!map.contains_key("c"));
    assert_eq!(map.remove("a"), Some(3));
    assert_eq!(map.remove("a"), None);
    assert_eq!(map.find("b"), Some(0));
}

#[test]
fn signature_of_symbols() {
    let signature = Signature::new().inputs(vec![Type::FieldElement]);
    let key = FunctionKey::with_id("f").signature(signature.clone());
    let here: TypedFunctionSymbol<Bn128Field> = TypedFunctionSymbol::Here(TypedFunction {
        arguments: vec![Parameter::private(Variable::field_element("x"))],
        statements: vec![],
        signature: signature.clone(),
    });
    let mut functions = TypedFunctionSymbols::new();
    assert!(functions.insert(key.clone(), here));
    let mut modules: TypedModules<Bn128Field> = TypedModules::new();
    modules.insert("m".into(), TypedModule { functions });

    let there: TypedFunctionSymbol<Bn128Field> = TypedFunctionSymbol::There(key, "m".into());
    assert_eq!(there.signature(&modules), signature);

    let gadget = FlatEmbed::new("unpack", Signature::new().outputs(vec![Type::Boolean]));
    let flat: TypedFunctionSymbol<Bn128Field> = TypedFunctionSymbol::Flat(gadget);
    assert_eq!(
        flat.signature(&modules),
        Signature::new().outputs(vec![Type::Boolean])
    );
}

#[test]
fn signature_through_several_imports() {
    // one module, and a chain of three names: h is g, g is f, f is a function
    let signature = Signature::new().outputs(vec![Type::Boolean]);
    let f = FunctionKey::with_id("f").signature(signature.clone());
    let g = FunctionKey::with_id("g").signature(signature.clone());
    let h = FunctionKey::with_id("h").signature(signature.clone());
    let mut functions: TypedFunctionSymbols<Bn128Field> = TypedFunctionSymbols::new();
    assert!(functions.insert(
        f.clone(),
        TypedFunctionSymbol::Here(TypedFunction {
            arguments: vec![],
            statements: vec![],
            signature: signature.clone(),
        })
    ));
    assert!(functions.insert(g.clone(), TypedFunctionSymbol::There(f, "m".into())));
    assert!(functions.insert(h.clone(), TypedFunctionSymbol::There(g, "m".into())));
    let mut modules: TypedModules<Bn128Field> = TypedModules::new();
    modules.insert("m".into(), TypedModule { functions });
    let symbol: TypedFunctionSymbol<Bn128Field> = TypedFunctionSymbol::There(h, "m".into());
    assert_eq!(symbol.signature(&modules), signature);
}

#[test]
fn nodes_are_equal_when_their_values_are() {
    let here = Position { line: 1, col: 2 };
    let there = Position { line: 7, col: 9 };
    assert_eq!(Node::new(here, here, 5u32), Node::new(there, here, 5u32));
    assert_ne!(Node::new(here, here, 5u32), Node::new(here, here, 6u32));
    assert_eq!(
        UnresolvedType::User("Foo".into()).at(1, 2, 3),
        UnresolvedType::User("Foo".into()).mock()
    );
    assert_ne!(
        UnresolvedType::User("Foo".into()).mock(),
        UnresolvedType::User("Bar".into()).mock()
    );
}
