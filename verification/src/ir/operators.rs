//! `==`, `+`, `-` and `*` on combinations.

use vstd::prelude::*;
use vstd::std_specs::cmp::PartialEqSpecImpl;
use vstd::std_specs::ops::{AddSpecImpl, MulSpecImpl, SubSpecImpl};
use crate::field::Field;
use crate::ir::expression::{CanonicalLinComb, LinComb, QuadComb, negated, scaled};
use crate::ir::sums::same_sum;

verus! {

impl<T: Field> PartialEq for LinComb<T> {
    fn eq(&self, other: &Self) -> (r: bool) {
        self.same(other)
    }
}

impl<T: Field> PartialEqSpecImpl for LinComb<T> {
    open spec fn obeys_eq_spec() -> bool {
        true
    }

    open spec fn eq_spec(&self, other: &Self) -> bool {
        same_sum(self@, other@, T::modulus())
    }
}

impl<T: Field> PartialEq for CanonicalLinComb<T> {
    fn eq(&self, other: &Self) -> (r: bool) {
        self.same(other)
    }
}

impl<T: Field> PartialEqSpecImpl for CanonicalLinComb<T> {
    open spec fn obeys_eq_spec() -> bool {
        true
    }

    open spec fn eq_spec(&self, other: &Self) -> bool {
        self@ == other@
    }
}

impl<T: Field> PartialEq for QuadComb<T> {
    fn eq(&self, other: &Self) -> (r: bool) {
        self.same(other)
    }
}

impl<T: Field> PartialEqSpecImpl for QuadComb<T> {
    open spec fn obeys_eq_spec() -> bool {
        true
    }

    open spec fn eq_spec(&self, other: &Self) -> bool {
        same_sum(self@.0, other@.0, T::modulus()) && same_sum(self@.1, other@.1, T::modulus())
    }
}

impl<T: Field> core::ops::Add for LinComb<T> {
    type Output = LinComb<T>;

    fn add(self, other: LinComb<T>) -> (r: LinComb<T>)
        ensures
            r@ == self@ + other@,
    {
        LinComb::add(self, other)
    }
}

impl<T: Field> AddSpecImpl for LinComb<T> {
    open spec fn obeys_add_spec() -> bool {
        false
    }

    open spec fn add_req(self, other: LinComb<T>) -> bool {
        true
    }

    open spec fn add_spec(self, other: LinComb<T>) -> LinComb<T> {
        self
    }
}

impl<T: Field> core::ops::Sub for LinComb<T> {
    type Output = LinComb<T>;

    fn sub(self, other: LinComb<T>) -> (r: LinComb<T>)
        ensures
            r@ == self@ + negated(other@, T::modulus()),
    {
        LinComb::sub(self, other)
    }
}

impl<T: Field> SubSpecImpl for LinComb<T> {
    open spec fn obeys_sub_spec() -> bool {
        false
    }

    open spec fn sub_req(self, other: LinComb<T>) -> bool {
        true
    }

    open spec fn sub_spec(self, other: LinComb<T>) -> LinComb<T> {
        self
    }
}

impl<'a, T: Field> core::ops::Mul<&'a T> for LinComb<T> {
    type Output = LinComb<T>;

    fn mul(self, scalar: &'a T) -> (r: LinComb<T>)
        ensures
            r@ == scaled(self@, scalar.value(), T::modulus()),
    {
        LinComb::mul(self, scalar)
    }
}

impl<'a, T: Field> MulSpecImpl<&'a T> for LinComb<T> {
    open spec fn obeys_mul_spec() -> bool {
        false
    }

    open spec fn mul_req(self, scalar: &'a T) -> bool {
        true
    }

    open spec fn mul_spec(self, scalar: &'a T) -> LinComb<T> {
        self
    }
}

} // verus!
