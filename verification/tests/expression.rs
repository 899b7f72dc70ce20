use zokrates_core::field::bn128::Bn128Field;
use zokrates_core::flat_absy::FlatVariable;
use zokrates_core::ir::expression::{LinComb, QuadComb};

#[test]
fn add_zero() {
    let a: LinComb<Bn128Field> = LinComb::zero();
    let b: LinComb<Bn128Field> = LinComb::from_variable(FlatVariable::new(42));
    let c = a + b.copy();
    assert_eq!(c, b);
}

#[test]
fn add() {
    let a: LinComb<Bn128Field> = LinComb::from_variable(FlatVariable::new(42));
    let b: LinComb<Bn128Field> = LinComb::from_variable(FlatVariable::new(42));
    let c = a + b.copy();

    let expected_vec = vec![
        (FlatVariable::new(42), Bn128Field::from(1)),
        (FlatVariable::new(42), Bn128Field::from(1)),
    ];

    assert_eq!(c, LinComb(expected_vec));
}

#[test]
fn sub() {
    let a: LinComb<Bn128Field> = LinComb::from_variable(FlatVariable::new(42));
    let b: LinComb<Bn128Field> = LinComb::from_variable(FlatVariable::new(42));
    let c = a - b.copy();

    let expected_vec = vec![
        (FlatVariable::new(42), Bn128Field::from(1)),
        (FlatVariable::new(42), Bn128Field::from(-1)),
    ];

    assert_eq!(c, LinComb(expected_vec));
}

#[test]
fn expression_display() {
    let a: LinComb<Bn128Field> = LinComb::from_variable(FlatVariable::new(42))
        + LinComb::summand(Bn128Field::from(3), FlatVariable::new(21));
    assert_eq!(&a.to_string(), "3 * _21 + 1 * _42");
    let zero: LinComb<Bn128Field> = LinComb::zero();
    assert_eq!(&zero.to_string(), "0");

    let a: QuadComb<Bn128Field> = QuadComb {
        left: LinComb::summand(Bn128Field::from(3), FlatVariable::new(42))
            + LinComb::summand(Bn128Field::from(4), FlatVariable::new(33)),
        right: LinComb::summand(Bn128Field::from(1), FlatVariable::new(21)),
    };
    assert_eq!(&a.to_string(), "(4 * _33 + 3 * _42) * (1 * _21)");
    let a: QuadComb<Bn128Field> = QuadComb {
        left: LinComb::zero(),
        right: LinComb::summand(Bn128Field::from(1), FlatVariable::new(21)),
    };
    assert_eq!(&a.to_string(), "(0) * (1 * _21)");
}

#[test]
fn from_linear() {
    let a: LinComb<Bn128Field> = LinComb::summand(Bn128Field::from(3), FlatVariable::new(42))
        + LinComb::summand(Bn128Field::from(4), FlatVariable::new(33));
    let expected = QuadComb {
        left: LinComb::one(),
        right: a.copy(),
    };
    assert_eq!(QuadComb::from_linear(a), expected);
}

#[test]
fn zero() {
    let a: LinComb<Bn128Field> = LinComb::zero();
    let expected: QuadComb<Bn128Field> = QuadComb {
        left: LinComb::one(),
        right: LinComb::zero(),
    };
    assert_eq!(QuadComb::from_linear(a), expected);
}

#[test]
fn try_summand() {
    let summand = LinComb(vec![
        (FlatVariable::new(42), Bn128Field::from(1)),
        (FlatVariable::new(42), Bn128Field::from(2)),
        (FlatVariable::new(42), Bn128Field::from(3)),
    ]);
    assert_eq!(
        summand.try_summand(),
        Some((FlatVariable::new(42), Bn128Field::from(6)))
    );

    let not_summand = LinComb(vec![
        (FlatVariable::new(41), Bn128Field::from(1)),
        (FlatVariable::new(42), Bn128Field::from(2)),
        (FlatVariable::new(42), Bn128Field::from(3)),
    ]);
    assert_eq!(not_summand.try_summand(), None);

    let empty: LinComb<Bn128Field> = LinComb(vec![]);
    assert_eq!(empty.try_summand(), None);
}

#[test]
fn canonical_form_is_sorted_and_merged() {
    let l: LinComb<Bn128Field> = LinComb(vec![
        (FlatVariable::new(7), Bn128Field::from(2)),
        (FlatVariable::one(), Bn128Field::from(5)),
        (FlatVariable::new(7), Bn128Field::from(3)),
        (FlatVariable::new(3), Bn128Field::from(0)),
        (FlatVariable::new(1), Bn128Field::from(4)),
        (FlatVariable::new(1), Bn128Field::from(-4)),
    ]);
    let c = l.copy().into_canonical();
    assert_eq!(
        c.0,
        vec![
            (FlatVariable::one(), Bn128Field::from(5)),
            (FlatVariable::new(7), Bn128Field::from(5)),
        ]
    );
    // canonicalisation is idempotent
    let again = c.into_lin_comb().into_canonical();
    assert_eq!(again.0, l.into_canonical().0);
}

#[test]
fn sub_self_is_zero() {
    let l: LinComb<Bn128Field> = LinComb(vec![
        (FlatVariable::new(7), Bn128Field::from(2)),
        (FlatVariable::new(9), Bn128Field::from(11)),
    ]);
    assert_eq!(l.copy() - l, LinComb::zero());
}

#[test]
fn mul_then_div_gives_back() {
    let l: LinComb<Bn128Field> = LinComb(vec![
        (FlatVariable::new(7), Bn128Field::from(2)),
        (FlatVariable::new(9), Bn128Field::from(-11)),
    ]);
    let k = Bn128Field::from(123456);
    let scaled = l.copy() * &k;
    assert_eq!(
        scaled.0,
        vec![
            (FlatVariable::new(7), Bn128Field::from(246912)),
            (FlatVariable::new(9), Bn128Field::from(-1358016)),
        ]
    );
    assert_eq!(scaled.div(&k), Some(l.copy()));
    assert_eq!(l.div(&Bn128Field::from(0)), None);
}

#[test]
fn try_linear_cases() {
    let l: LinComb<Bn128Field> = LinComb(vec![
        (FlatVariable::new(7), Bn128Field::from(2)),
        (FlatVariable::new(9), Bn128Field::from(11)),
    ]);
    let three: LinComb<Bn128Field> = LinComb::summand(Bn128Field::from(3), FlatVariable::one());
    let expected: LinComb<Bn128Field> = LinComb(vec![
        (FlatVariable::new(7), Bn128Field::from(6)),
        (FlatVariable::new(9), Bn128Field::from(33)),
    ]);
    let left = QuadComb::from_linear_combinations(three.copy(), l.copy());
    assert_eq!(left.try_linear().map(|r| r.0), Some(expected.copy().0));
    let right = QuadComb::from_linear_combinations(l.copy(), three);
    assert_eq!(right.try_linear().map(|r| r.0), Some(expected.0));
    let zero_side = QuadComb::from_linear_combinations(l.copy(), LinComb::zero());
    assert_eq!(zero_side.try_linear().map(|r| r.0), Some(vec![]));
    let neither = QuadComb::from_linear_combinations(l.copy(), l);
    assert_eq!(neither.try_linear(), None);
}

#[test]
fn try_linear_reads_canonical_forms() {
    // (ONE + x42 - x42) * (3 * x21) is 3 * x21
    let left: LinComb<Bn128Field> = LinComb(vec![
        (FlatVariable::one(), Bn128Field::from(1)),
        (FlatVariable::new(42), Bn128Field::from(1)),
        (FlatVariable::new(42), Bn128Field::from(-1)),
    ]);
    let right = LinComb::summand(Bn128Field::from(3), FlatVariable::new(21));
    let q = QuadComb::from_linear_combinations(left.copy(), right.copy());
    assert_eq!(
        q.try_linear(),
        Some(LinComb::summand(Bn128Field::from(3), FlatVariable::new(21)))
    );
    // the same on the other side
    let q = QuadComb::from_linear_combinations(right.copy(), left);
    assert_eq!(
        q.try_linear(),
        Some(LinComb::summand(Bn128Field::from(3), FlatVariable::new(21)))
    );
    // a side that comes to zero makes the product zero
    let nothing: LinComb<Bn128Field> =
        LinComb::from_variable(FlatVariable::new(7)) - LinComb::from_variable(FlatVariable::new(7));
    let other: LinComb<Bn128Field> = LinComb::from_variable(FlatVariable::new(1))
        + LinComb::from_variable(FlatVariable::new(2));
    let q = QuadComb::from_linear_combinations(nothing, other.copy());
    assert_eq!(q.try_linear(), Some(LinComb::zero()));
    // two wires on both sides: no linear combination
    let q = QuadComb::from_linear_combinations(other.copy(), other);
    assert_eq!(q.try_linear(), None);
}

#[test]
fn a_sum_that_comes_to_zero_is_written_as_zero() {
    let l: LinComb<Bn128Field> = LinComb::from_variable(FlatVariable::new(42))
        - LinComb::from_variable(FlatVariable::new(42));
    assert_eq!(l.to_string(), "0");
    let zero: LinComb<Bn128Field> = LinComb::zero();
    assert_eq!(zero.to_string(), "0");
    let q = QuadComb::from_linear_combinations(
        l,
        LinComb::summand(Bn128Field::from(3), FlatVariable::new(21)),
    );
    assert_eq!(q.to_string(), "(0) * (3 * _21)");
}

#[test]
fn division_undoes_multiplication() {
    let l: LinComb<Bn128Field> = LinComb(vec![
        (FlatVariable::new(3), Bn128Field::from(5)),
        (FlatVariable::one(), Bn128Field::from(-2)),
        (FlatVariable::new(3), Bn128Field::from(7)),
    ]);
    for k in [1, 2, 3, 7, -1, 65537, i32::MAX, i32::MIN] {
        let k = Bn128Field::from(k);
        let back = (l.copy() * &k).div(&k).unwrap();
        assert_eq!(back, l);
        // wire by wire, in the order of the terms
        assert_eq!(back.0, l.0);
    }
    assert!(l.copy().div(&Bn128Field::from(0)).is_none());
}
