//! Prime fields. The analyser and the algebra are written against the
//! `Field` interface; `bn128` provides the field the tests run on.

pub mod bn128;
pub mod raw;

use vstd::prelude::*;
use vstd::arithmetic::div_mod::{lemma_mul_mod_noop_general, lemma_small_mod};
use crate::natural::le_value;
use crate::text::dec_string;

verus! {

/// The compact decimal form of a field element: elements in the lower half of
/// the field are written as they are, the others as the negative number they
/// stand for, in parentheses.
pub open spec fn compact_dec_string(value: nat, modulus: nat) -> Seq<char> {
    if value <= (modulus - 1) / 2 {
        dec_string(value)
    } else {
        "(-"@ + dec_string((modulus - value) as nat) + ")"@
    }
}

/// Whether `i` is the multiplicative inverse of `v` modulo `p`.
pub open spec fn is_inverse(v: nat, i: nat, p: nat) -> bool {
    i < p && (v * i) % p == 1
}

/// Whether `v` has a multiplicative inverse modulo `p`.
pub open spec fn has_inverse(v: nat, p: nat) -> bool {
    exists|i: nat| is_inverse(v, i, p)
}

/// The multiplicative inverse of `v` modulo `p`, where it has one.
pub open spec fn inverse_of(v: nat, p: nat) -> nat {
    choose|i: nat| is_inverse(v, i, p)
}

/// A number has one inverse at most.
pub proof fn lemma_inverse_unique(v: nat, i: nat, j: nat, p: nat)
    requires
        p >= 2,
        is_inverse(v, i, p),
        is_inverse(v, j, p),
    ensures
        i == j,
{
    let pi = p as int;
    let vi = v as int;
    let ii = i as int;
    let ji = j as int;
    assert(ii * (vi * ji) == (vi * ii) * ji) by (nonlinear_arith);
    lemma_mul_mod_noop_general(ii, vi * ji, pi);
    lemma_mul_mod_noop_general(vi * ii, ji, pi);
    assert(ii * 1 == ii) by (nonlinear_arith);
    assert(1 * ji == ji) by (nonlinear_arith);
    lemma_small_mod(i, p);
    lemma_small_mod(j, p);
}

/// An element of a prime field. Every element stands for one number below
/// the modulus, its `value`.
pub trait Field: Sized {
    /// The modulus of the field.
    spec fn modulus() -> nat;

    /// The number below the modulus that this element stands for.
    spec fn value(&self) -> nat;

    /// The modulus is at least two.
    proof fn lemma_modulus()
        ensures
            Self::modulus() >= 2,
    ;

    /// Every element stands for a number below the modulus.
    proof fn lemma_value(&self)
        ensures
            self.value() < Self::modulus(),
    ;

    fn zero() -> (r: Self)
        ensures
            r.value() == 0,
    ;

    fn one() -> (r: Self)
        ensures
            r.value() == 1,
    ;

    /// The smallest element.
    fn min_value() -> (r: Self)
        ensures
            r.value() == 0,
    ;

    /// The largest element.
    fn max_value() -> (r: Self)
        ensures
            r.value() == Self::modulus() - 1,
    ;

    fn from_usize(n: usize) -> (r: Self)
        ensures
            r.value() == n as nat % Self::modulus(),
    ;

    /// A signed integer as a field element; negative numbers wrap around the
    /// modulus.
    fn from_i32(n: i32) -> (r: Self)
        ensures
            r.value() == (n as int) % (Self::modulus() as int),
    ;

    /// The element that stands for the number with these little-endian
    /// bytes, if that number is below the modulus.
    fn try_from_le_bytes(bytes: &Vec<u8>) -> (r: Option<Self>)
        ensures
            r is Some <==> le_value(bytes@) < Self::modulus(),
            r matches Some(x) ==> x.value() == le_value(bytes@),
    ;

    fn to_le_bytes(&self) -> (r: Vec<u8>)
        ensures
            le_value(r@) == self.value(),
    ;

    /// The element as a `usize`, where it fits.
    fn to_usize(&self) -> (r: Option<usize>)
        ensures
            r == if self.value() <= usize::MAX {
                Some(self.value() as usize)
            } else {
                None::<usize>
            },
    ;

    /// A copy that stands for the same number.
    fn duplicate(&self) -> (r: Self)
        ensures
            r.value() == self.value(),
    ;

    fn is_zero(&self) -> (r: bool)
        ensures
            r == (self.value() == 0),
    ;

    fn same(&self, other: &Self) -> (r: bool)
        ensures
            r == (self.value() == other.value()),
    ;

    fn add(&self, other: &Self) -> (r: Self)
        ensures
            r.value() == (self.value() + other.value()) % Self::modulus(),
    ;

    fn sub(&self, other: &Self) -> (r: Self)
        ensures
            r.value() == (self.value() - other.value()) % (Self::modulus() as int),
    ;

    fn mul(&self, other: &Self) -> (r: Self)
        ensures
            r.value() == (self.value() * other.value()) % Self::modulus(),
    ;

    /// The multiplicative inverse, for every element that has one. Zero has
    /// none.
    fn inverse_mul(&self) -> (r: Option<Self>)
        ensures
            self.value() == 0 ==> r is None,
            r matches Some(i) ==> is_inverse(self.value(), i.value(), Self::modulus()),
            has_inverse(self.value(), Self::modulus()) ==> r is Some,
    ;

    fn to_dec_string(&self) -> (r: String)
        ensures
            r@ == dec_string(self.value()),
    ;

    fn to_compact_dec_string(&self) -> (r: String)
        ensures
            r@ == compact_dec_string(self.value(), Self::modulus()),
    ;
}

} // verus!
