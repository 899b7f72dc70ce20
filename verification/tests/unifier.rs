use zokrates_core::semantics::symbols::SymbolUnifier;
use zokrates_core::typed_absy::types::{Signature, Type};

#[test]
fn unifier() {
    // the unifier should only accept either a single type or many functions of different signatures for each symbol

    let mut unifier = SymbolUnifier::default();

    assert!(unifier.insert_type("foo"));
    assert!(!unifier.insert_type("foo"));
    assert!(!unifier.insert_function("foo", Signature::new()));
    assert!(unifier.insert_function("bar", Signature::new()));
    assert!(!unifier.insert_function("bar", Signature::new()));
    assert!(unifier.insert_function("bar", Signature::new().inputs(vec![Type::FieldElement])));
    assert!(!unifier.insert_type("bar"));
}
