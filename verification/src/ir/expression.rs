//! Linear and quadratic combinations of wires.
//!
//! A linear combination keeps its terms in the order in which they came;
//! the same wire can occur in several terms. Its canonical form has each
//! wire once, in the order of the wires, and no term with the coefficient
//! zero. Two combinations are equal when their canonical forms are.

use vstd::prelude::*;
use vstd::arithmetic::div_mod::lemma_small_mod;
use crate::field::{Field, compact_dec_string, has_inverse, inverse_of, lemma_inverse_unique};
use crate::flat_absy::FlatVariable;
use crate::ir::sums::{
    Term, canon, canonical, lemma_canon, lemma_canonical_insert, lemma_canonical_remove,
    lemma_canonical_unique, lemma_canonical_update, lemma_total_bound, lemma_total_canonical,
    lemma_total_insert, same_sum, total,
};
use crate::text::{join, push_joined};

verus! {

/// The terms of a list, each with the number its coefficient stands for.
pub open spec fn terms_view<T: Field>(terms: Seq<(FlatVariable, T)>) -> Seq<Term> {
    Seq::new(terms.len(), |i: int| (terms[i].0, terms[i].1.value()))
}

/// A linear combination: a sum of multiples of wires.
#[derive(Debug)]
pub struct LinComb<T>(pub Vec<(FlatVariable, T)>);

/// The canonical form of a linear combination.
#[derive(Debug)]
pub struct CanonicalLinComb<T>(pub Vec<(FlatVariable, T)>);

/// A quadratic combination: the product of two linear combinations.
#[derive(Debug)]
pub struct QuadComb<T> {
    pub left: LinComb<T>,
    pub right: LinComb<T>,
}

/// The canonical form of a quadratic combination.
#[derive(Debug)]
pub struct CanonicalQuadComb<T> {
    pub left: CanonicalLinComb<T>,
    pub right: CanonicalLinComb<T>,
}

impl<T: Field> View for LinComb<T> {
    type V = Seq<Term>;

    open spec fn view(&self) -> Seq<Term> {
        terms_view(self.0@)
    }
}

impl<T: Field> View for CanonicalLinComb<T> {
    type V = Seq<Term>;

    open spec fn view(&self) -> Seq<Term> {
        terms_view(self.0@)
    }
}

impl<T: Field> View for QuadComb<T> {
    type V = (Seq<Term>, Seq<Term>);

    open spec fn view(&self) -> (Seq<Term>, Seq<Term>) {
        (self.left@, self.right@)
    }
}

impl<T: Field> View for CanonicalQuadComb<T> {
    type V = (Seq<Term>, Seq<Term>);

    open spec fn view(&self) -> (Seq<Term>, Seq<Term>) {
        (self.left@, self.right@)
    }
}

/// A term with its coefficient multiplied by `k`.
pub open spec fn scaled_term(t: Term, k: nat, p: nat) -> Term {
    (t.0, (t.1 * k) % p)
}

/// The terms with every coefficient multiplied by `k`.
pub open spec fn scaled(terms: Seq<Term>, k: nat, p: nat) -> Seq<Term> {
    Seq::new(terms.len(), |i: int| scaled_term(terms[i], k, p))
}

/// The terms with every coefficient negated.
pub open spec fn negated(terms: Seq<Term>, p: nat) -> Seq<Term> {
    Seq::new(terms.len(), |i: int| (terms[i].0, ((0 - terms[i].1) % (p as int)) as nat))
}

/// Whether every term is a multiple of the same wire.
pub open spec fn one_wire(terms: Seq<Term>) -> bool {
    terms.len() > 0 && forall|i: int| 0 <= i < terms.len() ==> (#[trigger] terms[i]).0 == terms[0].0
}

/// The wire and its coefficient, where every term is a multiple of the same
/// wire.
pub open spec fn summand(terms: Seq<Term>, p: nat) -> Option<Term> {
    if one_wire(terms) {
        Some((terms[0].0, total(terms, terms[0].0, p)))
    } else {
        None
    }
}

/// The linear combination that a quadratic combination is, where one of
/// its sides comes to a multiple of the wire `ONE` (the other side,
/// multiplied), or where one of its sides comes to zero. What a side comes
/// to is read from its canonical form.
pub open spec fn linear(left: Seq<Term>, right: Seq<Term>, p: nat) -> Option<Seq<Term>> {
    let l = summand(canon(left, p), p);
    let r = summand(canon(right, p), p);
    if l is Some && l->Some_0.0.is_one() {
        Some(scaled(right, l->Some_0.1, p))
    } else if r is Some && r->Some_0.0.is_one() {
        Some(scaled(left, r->Some_0.1, p))
    } else if canon(left, p).len() == 0 || canon(right, p).len() == 0 {
        Some(Seq::empty())
    } else {
        None
    }
}

/// How a term is written.
pub open spec fn term_display(t: Term, p: nat) -> Seq<char> {
    compact_dec_string(t.1, p) + " * "@ + t.0.display()
}

/// How a canonical form is written: its terms with `+` between them.
pub open spec fn canonical_display(terms: Seq<Term>, p: nat) -> Seq<char> {
    join(Seq::new(terms.len(), |i: int| term_display(terms[i], p)), " + "@)
}

/// How a linear combination is written: its canonical form, or `0` if
/// that has no terms.
pub open spec fn lin_display(terms: Seq<Term>, p: nat) -> Seq<char> {
    if canon(terms, p).len() == 0 {
        "0"@
    } else {
        canonical_display(canon(terms, p), p)
    }
}

/// How a quadratic combination is written: both sides in parentheses.
pub open spec fn quad_display(left: Seq<Term>, right: Seq<Term>, p: nat) -> Seq<char> {
    "("@ + lin_display(left, p) + ") * ("@ + lin_display(right, p) + ")"@
}

impl<T: Field> LinComb<T> {
    /// The multiple of one wire.
    pub fn summand(mult: T, var: FlatVariable) -> (r: LinComb<T>)
        ensures
            r@ == seq![(var, mult.value())],
    {
        let mut res: Vec<(FlatVariable, T)> = Vec::new();
        res.push((var, mult));
        assert(terms_view(res@) =~= seq![(var, mult.value())]);
        LinComb(res)
    }

    /// The combination without terms.
    pub fn zero() -> (r: LinComb<T>)
        ensures
            r@ == Seq::<Term>::empty(),
    {
        let r = LinComb(Vec::new());
        assert(r@ =~= Seq::<Term>::empty());
        r
    }

    /// Whether the combination has no terms.
    pub fn is_zero(&self) -> (r: bool)
        ensures
            r == (self@.len() == 0),
    {
        self.0.len() == 0
    }

    /// The wire `ONE`, once.
    pub fn one() -> (r: LinComb<T>)
        ensures
            r@ == seq![(FlatVariable { id: 0 }, 1nat)],
    {
        Self::summand(T::one(), FlatVariable::one())
    }

    /// A wire, once.
    pub fn from_variable(v: FlatVariable) -> (r: LinComb<T>)
        ensures
            r@ == seq![(v, 1nat)],
    {
        Self::summand(T::one(), v)
    }

    /// A constant: that multiple of the wire `ONE`.
    pub fn from_field(x: T) -> (r: LinComb<T>)
        ensures
            r@ == scaled(seq![(FlatVariable { id: 0 }, 1nat)], x.value(), T::modulus()),
    {
        Self::one().mul(&x)
    }

    /// A copy of the combination.
    pub fn copy(&self) -> (r: LinComb<T>)
        ensures
            r@ == self@,
    {
        let mut out: Vec<(FlatVariable, T)> = Vec::new();
        let mut i: usize = 0;
        while i < self.0.len()
            invariant
                i <= self.0.len(),
                out.len() == i,
                forall|j: int|
                    0 <= j < i ==> (#[trigger] out[j]).0 == self.0[j].0 && out[j].1.value()
                        == self.0[j].1.value(),
            decreases self.0.len() - i,
        {
            out.push((self.0[i].0, self.0[i].1.duplicate()));
            i += 1;
        }
        assert(terms_view(out@) =~= self@);
        LinComb(out)
    }

    /// The wire and its coefficient, where every term is a multiple of the
    /// same wire.
    pub fn try_summand(&self) -> (r: Option<(FlatVariable, T)>)
        ensures
            match r {
                Some((v, c)) => summand(self@, T::modulus()) == Some((v, c.value())),
                None => summand(self@, T::modulus()) is None,
            },
    {
        if self.0.len() == 0 {
            return None;
        }
        proof {
            T::lemma_modulus();
        }
        let first = self.0[0].0;
        let mut sum = T::zero();
        let mut i: usize = 0;
        let ghost terms = self@;
        assert(terms.take(0) =~= Seq::<Term>::empty());
        while i < self.0.len()
            invariant
                i <= self.0.len(),
                terms == self@,
                first == terms[0].0,
                forall|j: int| 0 <= j < i ==> (#[trigger] terms[j]).0 == first,
                sum.value() == total(terms.take(i as int), first, T::modulus()),
            decreases self.0.len() - i,
        {
            if self.0[i].0 != first {
                assert(terms[i as int].0 != terms[0].0);
                return None;
            }
            proof {
                assert(terms.take(i + 1).drop_last() =~= terms.take(i as int));
                assert(terms.take(i + 1).last() == terms[i as int]);
            }
            sum = sum.add(&self.0[i].1);
            i += 1;
        }
        assert(terms.take(i as int) =~= terms);
        Some((first, sum))
    }

    /// The sum of two combinations: the terms of both.
    pub fn add(self, other: LinComb<T>) -> (r: LinComb<T>)
        ensures
            r@ == self@ + other@,
    {
        let mut res = self.0;
        let mut more = other.0;
        let ghost a = res@;
        let ghost b = more@;
        res.append(&mut more);
        assert(terms_view(res@) =~= terms_view(a) + terms_view(b));
        LinComb(res)
    }

    /// The difference of two combinations: the terms of the first, and the
    /// terms of the second negated.
    pub fn sub(self, other: LinComb<T>) -> (r: LinComb<T>)
        ensures
            r@ == self@ + negated(other@, T::modulus()),
    {
        let mut res = self.0;
        let ghost a = terms_view(res@);
        let ghost b = negated(other@, T::modulus());
        let mut i: usize = 0;
        assert(a + b.take(0) =~= a);
        while i < other.0.len()
            invariant
                i <= other.0.len(),
                b == negated(other@, T::modulus()),
                terms_view(res@) == a + b.take(i as int),
            decreases other.0.len() - i,
        {
            let ghost before = terms_view(res@);
            let negative = T::zero().sub(&other.0[i].1);
            res.push((other.0[i].0, negative));
            assert(terms_view(res@) =~= before.push(b[i as int]));
            assert(a + b.take(i + 1) =~= (a + b.take(i as int)).push(b[i as int]));
            i += 1;
        }
        assert(b.take(i as int) =~= b);
        LinComb(res)
    }

    /// The combination multiplied by a constant: every coefficient is
    /// multiplied.
    pub fn mul(self, scalar: &T) -> (r: LinComb<T>)
        ensures
            r@ == scaled(self@, scalar.value(), T::modulus()),
    {
        let mut out: Vec<(FlatVariable, T)> = Vec::new();
        let ghost target = scaled(self@, scalar.value(), T::modulus());
        let mut i: usize = 0;
        assert(self@.len() == self.0.len());
        assert(target.len() == self@.len());
        while i < self.0.len()
            invariant
                i <= self.0.len(),
                target == scaled(self@, scalar.value(), T::modulus()),
                target.len() == self.0.len(),
                out.len() == i,
                forall|j: int|
                    0 <= j < i ==> (#[trigger] out[j]).0 == target[j].0 && out[j].1.value()
                        == target[j].1,
            decreases self.0.len() - i,
        {
            let product = self.0[i].1.mul(scalar);
            assert(target[i as int] == (self.0[i as int].0, product.value()));
            out.push((self.0[i].0, product));
            i += 1;
        }
        assert(terms_view(out@) =~= target);
        LinComb(out)
    }

    /// The combination divided by a constant: multiplied by its inverse.
    /// There is a result exactly where the constant has an inverse; zero
    /// has none.
    pub fn div(self, scalar: &T) -> (r: Option<LinComb<T>>)
        ensures
            r is Some <==> has_inverse(scalar.value(), T::modulus()),
            r matches Some(l) ==> l@ == scaled(
                self@,
                inverse_of(scalar.value(), T::modulus()),
                T::modulus(),
            ),
    {
        match scalar.inverse_mul() {
            Some(inverse) => {
                proof {
                    T::lemma_modulus();
                    lemma_inverse_unique(
                        scalar.value(),
                        inverse.value(),
                        inverse_of(scalar.value(), T::modulus()),
                        T::modulus(),
                    );
                }
                Some(self.mul(&inverse))
            },
            None => None,
        }
    }

    /// The canonical form: each wire once with the sum of its coefficients,
    /// in the order of the wires, without the wires whose coefficients add
    /// up to zero.
    pub fn into_canonical(self) -> (r: CanonicalLinComb<T>)
        ensures
            r@ == canon(self@, T::modulus()),
            canonical(r@, T::modulus()),
            same_sum(r@, self@, T::modulus()),
    {
        let ghost p = T::modulus();
        proof {
            T::lemma_modulus();
        }
        let mut acc: Vec<(FlatVariable, T)> = Vec::new();
        let ghost all = self.0;
        let ghost terms = self@;
        assert(terms.take(0) =~= Seq::<Term>::empty());
        assert(terms_view(acc@) =~= Seq::<Term>::empty());
        for term in it: self.0
            invariant
                p == T::modulus(),
                p >= 2,
                it.seq() == all@,
                terms == terms_view(all@),
                canonical(terms_view(acc@), p),
                same_sum(terms_view(acc@), terms.take(it.index() as int), p),
        {
            let ghost done = terms.take(it.index() as int);
            let ghost before = terms_view(acc@);
            assert(term == all[it.index() as int]);
            let (var, coeff) = term;
            proof {
                coeff.lemma_value();
                assert(terms.take(it.index() + 1).drop_last() =~= done);
                assert(terms.take(it.index() + 1).last() == (var, coeff.value()));
            }
            if coeff.is_zero() {
                assert forall|w: FlatVariable| #[trigger] total(before, w, p) == total(
                    terms.take(it.index() + 1),
                    w,
                    p,
                ) by {
                    assert(total(before, w, p) == total(done, w, p));
                    lemma_total_bound(done, w, p);
                    lemma_small_mod(total(done, w, p), p);
                }
            } else {
                let mut at: usize = 0;
                while at < acc.len() && acc[at].0.id < var.id
                    invariant
                        at <= acc.len(),
                        before == terms_view(acc@),
                        forall|i: int| 0 <= i < at ==> (#[trigger] before[i]).0.id < var.id,
                    decreases acc.len() - at,
                {
                    assert(before[at as int].0 == acc[at as int].0);
                    at += 1;
                }
                if at < acc.len() && acc[at].0.id == var.id {
                    assert(before[at as int] == (acc[at as int].0, acc[at as int].1.value()));
                    let sum = acc[at].1.add(&coeff);
                    proof {
                        sum.lemma_value();
                        lemma_total_canonical(before, at as int, p);
                    }
                    if !sum.is_zero() {
                        acc.set(at, (var, sum));
                        proof {
                            assert(terms_view(acc@) =~= before.update(
                                at as int,
                                (before[at as int].0, sum.value()),
                            ));
                            assert forall|w: FlatVariable| #[trigger] total(
                                terms_view(acc@),
                                w,
                                p,
                            ) == total(terms.take(it.index() + 1), w, p) by {
                                lemma_canonical_update(before, at as int, sum.value(), w, p);
                                assert(total(before, w, p) == total(done, w, p));
                                if w != var {
                                    lemma_total_bound(done, w, p);
                                    lemma_small_mod(total(done, w, p), p);
                                }
                            }
                            lemma_canonical_update(before, at as int, sum.value(), var, p);
                        }
                    } else {
                        acc.remove(at);
                        proof {
                            assert(terms_view(acc@) =~= before.remove(at as int));
                            assert forall|w: FlatVariable| #[trigger] total(
                                terms_view(acc@),
                                w,
                                p,
                            ) == total(terms.take(it.index() + 1), w, p) by {
                                lemma_canonical_remove(before, at as int, w, p);
                                assert(total(before, w, p) == total(done, w, p));
                                if w != var {
                                    lemma_total_bound(done, w, p);
                                    lemma_small_mod(total(done, w, p), p);
                                }
                            }
                            lemma_canonical_remove(before, at as int, var, p);
                        }
                    }
                } else {
                    proof {
                        assert forall|i: int| at <= i < before.len() implies var.id < (
                        #[trigger] before[i]).0.id by {
                            assert(before[at as int].0 == acc[at as int].0);
                            if i > at {
                                assert(before[at as int].0.id < before[i].0.id);
                            }
                        }
                    }
                    acc.insert(at, (var, coeff));
                    proof {
                        let t = (var, coeff.value());
                        assert(terms_view(acc@) =~= before.insert(at as int, t));
                        lemma_canonical_insert(before, at as int, t, p);
                        assert forall|w: FlatVariable| #[trigger] total(
                            terms_view(acc@),
                            w,
                            p,
                        ) == total(terms.take(it.index() + 1), w, p) by {
                            lemma_total_insert(before, at as int, t, w, p);
                            assert(total(before, w, p) == total(done, w, p));
                        }
                    }
                }
            }
        }
        assert(terms.take(all.len() as int) =~= terms);
        proof {
            lemma_canon(terms, terms_view(acc@), p);
        }
        CanonicalLinComb(acc)
    }

    /// The combination in canonical form.
    pub fn reduce(self) -> (r: LinComb<T>)
        ensures
            r@ == canon(self@, T::modulus()),
            canonical(r@, T::modulus()),
            same_sum(r@, self@, T::modulus()),
    {
        self.into_canonical().into_lin_comb()
    }

    /// Whether two combinations are equal: their canonical forms are, which
    /// is to say that every wire has the same coefficient in both.
    pub fn same(&self, other: &LinComb<T>) -> (r: bool)
        ensures
            r == same_sum(self@, other@, T::modulus()),
    {
        let a = self.copy().into_canonical();
        let b = other.copy().into_canonical();
        let ghost p = T::modulus();
        proof {
            T::lemma_modulus();
        }
        let equal = a.same(&b);
        proof {
            if equal {
                assert forall|w: FlatVariable| #[trigger] total(self@, w, p) == total(
                    other@,
                    w,
                    p,
                ) by {
                    assert(total(a@, w, p) == total(self@, w, p));
                    assert(total(b@, w, p) == total(other@, w, p));
                }
            } else if same_sum(self@, other@, p) {
                assert forall|w: FlatVariable| #[trigger] total(a@, w, p) == total(b@, w, p) by {
                    assert(total(a@, w, p) == total(self@, w, p));
                    assert(total(b@, w, p) == total(other@, w, p));
                    assert(total(self@, w, p) == total(other@, w, p));
                }
                lemma_canonical_unique(a@, b@, p);
            }
        }
        equal
    }

    /// The combination as text: its canonical form, or `0` if that has no
    /// terms.
    pub fn to_string(&self) -> (r: String)
        ensures
            r@ == lin_display(self@, T::modulus()),
    {
        let canonical = self.copy().into_canonical();
        if canonical.0.len() == 0 {
            assert(canonical@.len() == 0);
            String::from_str("0")
        } else {
            assert(canonical@.len() != 0);
            canonical.to_string()
        }
    }
}

impl<T: Field> CanonicalLinComb<T> {
    /// The terms are in the order of their wires, each wire once, and no
    /// coefficient is zero.
    pub open spec fn wf(&self) -> bool {
        canonical(self@, T::modulus())
    }

    /// The combination with these terms.
    pub fn into_lin_comb(self) -> (r: LinComb<T>)
        ensures
            r@ == self@,
    {
        LinComb(self.0)
    }

    /// Whether two canonical forms have the same terms.
    pub fn same(&self, other: &CanonicalLinComb<T>) -> (r: bool)
        ensures
            r == (self@ == other@),
    {
        if self.0.len() != other.0.len() {
            assert(self@.len() != other@.len());
            return false;
        }
        let mut i: usize = 0;
        while i < self.0.len()
            invariant
                i <= self.0.len(),
                self.0.len() == other.0.len(),
                forall|j: int| 0 <= j < i ==> self@[j] == other@[j],
            decreases self.0.len() - i,
        {
            if self.0[i].0 != other.0[i].0 || !self.0[i].1.same(&other.0[i].1) {
                assert(self@[i as int] != other@[i as int]);
                return false;
            }
            i += 1;
        }
        assert(self@ =~= other@);
        true
    }

    /// The canonical form as text: its terms with `+` between them.
    pub fn to_string(&self) -> (r: String)
        ensures
            r@ == canonical_display(self@, T::modulus()),
    {
        let mut out = String::new();
        let mut i: usize = 0;
        let ghost terms = self@;
        let ghost items = Seq::new(terms.len(), |i: int| term_display(terms[i], T::modulus()));
        assert(items.take(0) =~= Seq::<Seq<char>>::empty());
        while i < self.0.len()
            invariant
                i <= self.0.len(),
                terms == self@,
                items == Seq::new(terms.len(), |i: int| term_display(terms[i], T::modulus())),
                out@ == join(items.take(i as int), " + "@),
            decreases self.0.len() - i,
        {
            let mut item = self.0[i].1.to_compact_dec_string();
            item.append(" * ");
            item.append(self.0[i].0.to_string().as_str());
            proof {
                assert(items.take(i + 1).drop_last() =~= items.take(i as int));
            }
            push_joined(&mut out, i, " + ", item.as_str(), Ghost(items.take(i + 1)));
            i += 1;
        }
        assert(items.take(i as int) =~= items);
        out
    }
}

impl<T: Field> QuadComb<T> {
    pub fn from_linear_combinations(left: LinComb<T>, right: LinComb<T>) -> (r: Self)
        ensures
            r@ == (left@, right@),
    {
        QuadComb { left, right }
    }

    /// The product of the wire `ONE` and a linear combination.
    pub fn from_linear(x: LinComb<T>) -> (r: Self)
        ensures
            r@ == (seq![(FlatVariable { id: 0 }, 1nat)], x@),
    {
        QuadComb::from_linear_combinations(LinComb::one(), x)
    }

    /// The linear combination that the product is, where one side comes
    /// to a multiple of the wire `ONE` or to zero.
    pub fn try_linear(&self) -> (r: Option<LinComb<T>>)
        ensures
            match r {
                Some(l) => linear(self.left@, self.right@, T::modulus()) == Some(l@),
                None => linear(self.left@, self.right@, T::modulus()) is None,
            },
    {
        let left = self.left.copy().reduce();
        let right = self.right.copy().reduce();
        match left.try_summand() {
            Some((variable, coefficient)) => {
                if variable.is_one() {
                    return Some(self.right.copy().mul(&coefficient));
                }
            },
            None => {},
        }
        match right.try_summand() {
            Some((variable, coefficient)) => {
                if variable.is_one() {
                    return Some(self.left.copy().mul(&coefficient));
                }
            },
            None => {},
        }
        if left.is_zero() || right.is_zero() {
            return Some(LinComb::zero());
        }
        None
    }

    /// The canonical form: both sides in canonical form.
    pub fn into_canonical(self) -> (r: CanonicalQuadComb<T>)
        ensures
            r@ == (canon(self@.0, T::modulus()), canon(self@.1, T::modulus())),
            canonical(r@.0, T::modulus()),
            canonical(r@.1, T::modulus()),
            same_sum(r@.0, self@.0, T::modulus()),
            same_sum(r@.1, self@.1, T::modulus()),
    {
        CanonicalQuadComb {
            left: self.left.into_canonical(),
            right: self.right.into_canonical(),
        }
    }

    /// The combination with both sides in canonical form.
    pub fn reduce(self) -> (r: Self)
        ensures
            r@ == (canon(self@.0, T::modulus()), canon(self@.1, T::modulus())),
            canonical(r@.0, T::modulus()),
            canonical(r@.1, T::modulus()),
            same_sum(r@.0, self@.0, T::modulus()),
            same_sum(r@.1, self@.1, T::modulus()),
    {
        self.into_canonical().into_quad_comb()
    }

    /// Whether two combinations are equal: their left sides are, and their
    /// right sides are.
    pub fn same(&self, other: &QuadComb<T>) -> (r: bool)
        ensures
            r == (same_sum(self@.0, other@.0, T::modulus()) && same_sum(
                self@.1,
                other@.1,
                T::modulus(),
            )),
    {
        self.left.same(&other.left) && self.right.same(&other.right)
    }

    /// The combination as text: both sides in parentheses.
    pub fn to_string(&self) -> (r: String)
        ensures
            r@ == quad_display(self.left@, self.right@, T::modulus()),
    {
        let mut s = String::from_str("(");
        s.append(self.left.to_string().as_str());
        s.append(") * (");
        s.append(self.right.to_string().as_str());
        s.append(")");
        s
    }
}

impl<T: Field> CanonicalQuadComb<T> {
    /// The combination with these sides.
    pub fn into_quad_comb(self) -> (r: QuadComb<T>)
        ensures
            r@ == self@,
    {
        QuadComb { left: self.left.into_lin_comb(), right: self.right.into_lin_comb() }
    }
}

} // verus!
