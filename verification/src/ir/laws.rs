//! What holds of linear and quadratic combinations.

use vstd::prelude::*;
use vstd::arithmetic::div_mod::{
    lemma_add_mod_noop, lemma_mod_bound, lemma_mod_twice, lemma_mul_mod_noop_general,
    lemma_small_mod, lemma_sub_mod_noop,
};
use vstd::arithmetic::mul::{lemma_mul_is_associative, lemma_mul_is_distributive_add_other_way};
use crate::field::{has_inverse, inverse_of};
use crate::flat_absy::FlatVariable;
use crate::ir::expression::{linear, negated, one_wire, scaled, scaled_term, summand};
use crate::ir::sums::{
    Term, canon, canonical, lemma_canon, lemma_canonical_insert, lemma_canonical_remove,
    lemma_canonical_update, lemma_total_bound, lemma_total_canonical, lemma_total_concat,
    lemma_total_insert, same_sum, total,
};

verus! {

/// The position of the first term whose wire is not before `w`.
pub open spec fn place_of(c: Seq<Term>, w: FlatVariable) -> int
    decreases c.len(),
{
    if c.len() == 0 {
        0
    } else if c[0].0.id >= w.id {
        0
    } else {
        1 + place_of(c.drop_first(), w)
    }
}

proof fn lemma_place_of(c: Seq<Term>, w: FlatVariable)
    ensures
        0 <= place_of(c, w) <= c.len(),
        forall|i: int| 0 <= i < place_of(c, w) ==> (#[trigger] c[i]).0.id < w.id,
        place_of(c, w) < c.len() ==> c[place_of(c, w)].0.id >= w.id,
    decreases c.len(),
{
    if c.len() != 0 && c[0].0.id < w.id {
        let rest = c.drop_first();
        lemma_place_of(rest, w);
        assert forall|i: int| 0 <= i < place_of(c, w) implies (#[trigger] c[i]).0.id < w.id by {
            if i > 0 {
                assert(c[i] == rest[i - 1]);
            }
        }
    }
}

/// A canonical form with one more term added to it.
pub open spec fn with_term(c: Seq<Term>, t: Term, p: nat) -> Seq<Term> {
    let at = place_of(c, t.0);
    if t.1 % p == 0 {
        c
    } else if at < c.len() && c[at].0 == t.0 {
        if (c[at].1 + t.1) % p == 0 {
            c.remove(at)
        } else {
            c.update(at, (t.0, (c[at].1 + t.1) % p))
        }
    } else {
        c.insert(at, (t.0, t.1 % p))
    }
}

/// The canonical form of a sum, built term by term.
pub open spec fn built(terms: Seq<Term>, p: nat) -> Seq<Term>
    decreases terms.len(),
{
    if terms.len() == 0 {
        Seq::empty()
    } else {
        with_term(built(terms.drop_last(), p), terms.last(), p)
    }
}

proof fn lemma_with_term(c: Seq<Term>, t: Term, p: nat, w: FlatVariable)
    requires
        p >= 2,
        canonical(c, p),
    ensures
        canonical(with_term(c, t, p), p),
        total(with_term(c, t, p), w, p) == (total(c, w, p) + if t.0 == w {
            t.1
        } else {
            0
        }) % p,
{
    let at = place_of(c, t.0);
    lemma_place_of(c, t.0);
    lemma_total_bound(c, w, p);
    lemma_small_mod(total(c, w, p), p);
    let tc = total(c, w, p) as int;
    let pi = p as int;
    if t.1 % p == 0 {
        if t.0 == w {
            lemma_add_mod_noop(tc, t.1 as int, pi);
        }
    } else if at < c.len() && c[at].0 == t.0 {
        lemma_total_canonical(c, at, p);
        let sum = (c[at].1 + t.1) % p;
        lemma_mod_bound((c[at].1 + t.1) as int, pi);
        if sum == 0 {
            lemma_canonical_remove(c, at, w, p);
        } else {
            lemma_canonical_update(c, at, sum, w, p);
            assert(c.update(at, (c[at].0, sum)) == c.update(at, (t.0, sum)));
        }
    } else {
        let term = (t.0, t.1 % p);
        lemma_mod_bound(t.1 as int, pi);
        assert forall|i: int| at <= i < c.len() implies t.0.id < (#[trigger] c[i]).0.id by {
            assert(c[at].0.id >= t.0.id);
            assert(c[at].0 != t.0);
            if i > at {
                assert(c[at].0.id < c[i].0.id);
            }
        }
        lemma_canonical_insert(c, at, term, p);
        lemma_total_insert(c, at, term, w, p);
        if t.0 == w {
            lemma_add_mod_noop(tc, t.1 as int, pi);
            lemma_add_mod_noop(tc, (t.1 % p) as int, pi);
            lemma_mod_twice(t.1 as int, pi);
        }
    }
}

/// Every sum has a canonical form.
pub proof fn lemma_built(terms: Seq<Term>, p: nat)
    requires
        p >= 2,
    ensures
        canonical(built(terms, p), p),
        same_sum(built(terms, p), terms, p),
        canon(terms, p) == built(terms, p),
    decreases terms.len(),
{
    if terms.len() == 0 {
        assert(canonical(Seq::<Term>::empty(), p));
    } else {
        let rest = terms.drop_last();
        lemma_built(rest, p);
        let c = built(rest, p);
        lemma_with_term(c, terms.last(), p, terms.last().0);
        assert forall|w: FlatVariable| #[trigger] total(built(terms, p), w, p) == total(
            terms,
            w,
            p,
        ) by {
            lemma_with_term(c, terms.last(), p, w);
            assert(total(c, w, p) == total(rest, w, p));
        }
    }
    lemma_canon(terms, built(terms, p), p);
}

/// The canonical form of a sum is canonical and adds up to the sum.
pub proof fn law_canonical_form(l: Seq<Term>, p: nat)
    requires
        p >= 2,
    ensures
        canonical(canon(l, p), p),
        same_sum(canon(l, p), l, p),
{
    lemma_built(l, p);
}

/// Taking the canonical form twice is taking it once.
pub proof fn law_canonical_idempotent(l: Seq<Term>, p: nat)
    requires
        p >= 2,
    ensures
        canon(canon(l, p), p) == canon(l, p),
{
    lemma_built(l, p);
    let c = canon(l, p);
    lemma_canon(c, c, p);
}

/// Two sums are the same sum exactly when their canonical forms are equal.
pub proof fn law_equality(a: Seq<Term>, b: Seq<Term>, p: nat)
    requires
        p >= 2,
    ensures
        same_sum(a, b, p) <==> canon(a, p) == canon(b, p),
{
    lemma_built(a, p);
    lemma_built(b, p);
    let ca = canon(a, p);
    let cb = canon(b, p);
    if same_sum(a, b, p) {
        assert forall|w: FlatVariable| #[trigger] total(ca, w, p) == total(b, w, p) by {
            assert(total(ca, w, p) == total(a, w, p));
            assert(total(a, w, p) == total(b, w, p));
        }
        lemma_canon(b, ca, p);
    }
    if ca == cb {
        assert forall|w: FlatVariable| #[trigger] total(a, w, p) == total(b, w, p) by {
            assert(total(ca, w, p) == total(a, w, p));
            assert(total(cb, w, p) == total(b, w, p));
        }
    }
}

/// A sum and the sum without terms add up to the sum.
pub proof fn law_add_zero(l: Seq<Term>, p: nat)
    ensures
        same_sum(l + Seq::<Term>::empty(), l, p),
        same_sum(Seq::<Term>::empty() + l, l, p),
{
    assert(l + Seq::<Term>::empty() =~= l);
    assert(Seq::<Term>::empty() + l =~= l);
}

proof fn lemma_total_negated(l: Seq<Term>, w: FlatVariable, p: nat)
    requires
        p >= 2,
    ensures
        total(negated(l, p), w, p) == ((0 - total(l, w, p)) % (p as int)) as nat,
    decreases l.len(),
{
    let pi = p as int;
    let n = negated(l, p);
    if l.len() == 0 {
        assert(n =~= Seq::<Term>::empty());
        lemma_small_mod(0, p);
    } else {
        assert(n.drop_last() =~= negated(l.drop_last(), p));
        lemma_total_negated(l.drop_last(), w, p);
        let tr = total(l.drop_last(), w, p) as int;
        let c = l.last().1 as int;
        assert(n.last() == (l.last().0, ((0 - c) % pi) as nat));
        lemma_mod_bound(0 - tr, pi);
        lemma_mod_bound(0 - c, pi);
        if l.last().0 == w {
            // ((-tr) % p + (-c) % p) % p == (-(tr + c) % p) % p
            lemma_add_mod_noop(0 - tr, 0 - c, pi);
            lemma_sub_mod_noop(0, tr + c, pi);
            lemma_small_mod(0, p);
        } else {
            lemma_add_mod_noop(0 - tr, 0, pi);
            lemma_mod_twice(0 - tr, pi);
            lemma_sub_mod_noop(0, tr, pi);
            lemma_small_mod(0, p);
            lemma_add_mod_noop(tr, 0, pi);
            lemma_total_bound(l.drop_last(), w, p);
            lemma_small_mod(tr as nat, p);
        }
    }
}

/// A sum minus itself is the sum without terms.
pub proof fn law_sub_self(l: Seq<Term>, p: nat)
    requires
        p >= 2,
    ensures
        same_sum(l + negated(l, p), Seq::<Term>::empty(), p),
{
    let pi = p as int;
    assert forall|w: FlatVariable| #[trigger] total(l + negated(l, p), w, p) == total(
        Seq::<Term>::empty(),
        w,
        p,
    ) by {
        lemma_total_concat(l, negated(l, p), w, p);
        lemma_total_negated(l, w, p);
        let t = total(l, w, p) as int;
        lemma_mod_bound(0 - t, pi);
        lemma_add_mod_noop(t, 0 - t, pi);
        lemma_small_mod(0, p);
        lemma_total_bound(l, w, p);
        lemma_small_mod(t as nat, p);
        assert(t + (0 - t) == 0);
        assert((t + (0 - t) % pi) % pi == 0);
    }
}

proof fn lemma_total_scaled(l: Seq<Term>, k: nat, w: FlatVariable, p: nat)
    requires
        p >= 2,
    ensures
        total(scaled(l, k, p), w, p) == (total(l, w, p) * k) % p,
    decreases l.len(),
{
    let pi = p as int;
    let s = scaled(l, k, p);
    if l.len() == 0 {
        assert(s =~= Seq::<Term>::empty());
        assert(0 * k == 0) by (nonlinear_arith);
        lemma_small_mod(0, p);
    } else {
        assert(s.drop_last() =~= scaled(l.drop_last(), k, p));
        lemma_total_scaled(l.drop_last(), k, w, p);
        let tr = total(l.drop_last(), w, p) as int;
        let c = if l.last().0 == w {
            l.last().1 as int
        } else {
            0
        };
        let ki = k as int;
        assert(s.last() == scaled_term(l.last(), k, p));
        // ((tr * k) % p + (c * k) % p) % p == (((tr + c) % p) * k) % p
        lemma_add_mod_noop(tr * ki, c * ki, pi);
        lemma_mul_is_distributive_add_other_way(ki, tr, c);
        lemma_mul_mod_noop_general(tr + c, ki, pi);
        if l.last().0 != w {
            assert(0 * ki == 0) by (nonlinear_arith);
            lemma_small_mod(0, p);
        }
    }
}

/// Multiplying a sum by a constant that has an inverse, and then dividing
/// it by the constant, gives the sum.
pub proof fn law_mul_div(l: Seq<Term>, k: nat, p: nat)
    requires
        p >= 2,
        has_inverse(k, p),
    ensures
        same_sum(scaled(scaled(l, k, p), inverse_of(k, p), p), l, p),
{
    let pi = p as int;
    let inverse = inverse_of(k, p);
    assert forall|w: FlatVariable| #[trigger] total(
        scaled(scaled(l, k, p), inverse, p),
        w,
        p,
    ) == total(l, w, p) by {
        lemma_total_scaled(l, k, w, p);
        lemma_total_scaled(scaled(l, k, p), inverse, w, p);
        let t = total(l, w, p) as int;
        let ki = k as int;
        let ii = inverse as int;
        // ((t * k) % p * inverse) % p == (t * (k * inverse)) % p == t
        lemma_mul_mod_noop_general(t * ki, ii, pi);
        lemma_mul_is_associative(t, ki, ii);
        lemma_mul_mod_noop_general(t, ki * ii, pi);
        assert(t * 1 == t) by (nonlinear_arith);
        lemma_total_bound(l, w, p);
        lemma_small_mod(t as nat, p);
        lemma_mod_twice(t, pi);
    }
}

/// Whether a canonical form is a multiple of the wire `ONE`.
pub open spec fn multiple_of_one(c: Seq<Term>) -> bool {
    c.len() == 1 && c[0].0.is_one()
}

/// A canonical form has a summand exactly when it has one term: that term.
proof fn lemma_canonical_summand(c: Seq<Term>, p: nat)
    requires
        p >= 2,
        canonical(c, p),
    ensures
        summand(c, p) is Some <==> c.len() == 1,
        c.len() == 1 ==> summand(c, p) == Some(c[0]),
{
    if c.len() >= 2 {
        assert(c[0].0.id < c[1].0.id);
        assert(!one_wire(c));
    }
    if c.len() == 1 {
        assert(c.drop_last() =~= Seq::<Term>::empty());
        assert(total(c.drop_last(), c[0].0, p) == 0);
        assert(0 < c[0].1 < p);
        lemma_small_mod(c[0].1, p);
        assert(one_wire(c));
    }
}

/// A product is linear exactly when one of its sides comes to a multiple of
/// the wire `ONE` or to zero; it is then the other side multiplied, or
/// zero. Sides with the same sums give the same answer.
pub proof fn law_try_linear(left: Seq<Term>, right: Seq<Term>, other: Seq<Term>, p: nat)
    requires
        p >= 2,
    ensures
        linear(left, right, p) is Some <==> (multiple_of_one(canon(left, p)) || multiple_of_one(
            canon(right, p),
        ) || canon(left, p).len() == 0 || canon(right, p).len() == 0),
        multiple_of_one(canon(left, p)) ==> linear(left, right, p) == Some(
            scaled(right, canon(left, p)[0].1, p),
        ),
        !multiple_of_one(canon(left, p)) && multiple_of_one(canon(right, p)) ==> linear(
            left,
            right,
            p,
        ) == Some(scaled(left, canon(right, p)[0].1, p)),
        same_sum(left, other, p) ==> (linear(other, right, p) is Some <==> linear(left, right, p)
            is Some),
        same_sum(right, other, p) ==> (linear(left, other, p) is Some <==> linear(left, right, p)
            is Some),
{
    law_canonical_form(left, p);
    law_canonical_form(right, p);
    lemma_canonical_summand(canon(left, p), p);
    lemma_canonical_summand(canon(right, p), p);
    if same_sum(left, other, p) {
        law_equality(left, other, p);
    }
    if same_sum(right, other, p) {
        law_equality(right, other, p);
    }
}

/// The terms of a sum are multiples of one wire exactly when the sum has a
/// summand: that wire, with the sum of the coefficients. Three multiples of
/// one wire have the sum of the three coefficients.
pub proof fn law_try_summand(terms: Seq<Term>, x: FlatVariable, a: nat, b: nat, c: nat, p: nat)
    requires
        p >= 2,
    ensures
        summand(terms, p) is Some <==> one_wire(terms),
        summand(Seq::<Term>::empty(), p) is None,
        summand(seq![(x, a), (x, b), (x, c)], p) == Some((x, (a + b + c) % p)),
{
    let three = seq![(x, a), (x, b), (x, c)];
    let two = seq![(x, a), (x, b)];
    let one = seq![(x, a)];
    assert(three.drop_last() =~= two);
    assert(two.drop_last() =~= one);
    assert(one.drop_last() =~= Seq::<Term>::empty());
    assert(total(one.drop_last(), x, p) == 0);
    let pi = p as int;
    lemma_add_mod_noop(a as int, b as int, pi);
    lemma_mod_twice(a as int, pi);
    lemma_add_mod_noop((a + b) as int, c as int, pi);
    lemma_mod_twice((a + b) as int, pi);
    assert(total(one, x, p) == a % p);
    assert(total(two, x, p) == (a % p + b) % p);
    lemma_add_mod_noop(a as int, b as int, pi);
    lemma_add_mod_noop((a % p) as int, b as int, pi);
    assert(total(two, x, p) == (a + b) % p);
    assert(total(three, x, p) == ((a + b) % p + c) % p);
    lemma_add_mod_noop(((a + b) % p) as int, c as int, pi);
    assert(one_wire(three));
}

} // verus!
