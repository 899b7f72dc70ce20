//! Formal sums of wires with coefficients in a prime field, as sequences of
//! terms, and what they add up to.

use vstd::prelude::*;
use vstd::arithmetic::div_mod::{
    lemma_add_mod_noop, lemma_mod_bound, lemma_mod_twice, lemma_small_mod,
};
use crate::flat_absy::FlatVariable;

verus! {

/// A term: a wire and the number its coefficient stands for.
pub type Term = (FlatVariable, nat);

/// The coefficient of the wire `w` in the sum of the terms, in the field of
/// modulus `p`.
pub open spec fn total(terms: Seq<Term>, w: FlatVariable, p: nat) -> nat
    decreases terms.len(),
{
    if terms.len() == 0 {
        0
    } else {
        (total(terms.drop_last(), w, p) + if terms.last().0 == w {
            terms.last().1
        } else {
            0
        }) % p
    }
}

/// Whether two sums are the same sum: every wire has the same coefficient
/// in both.
pub open spec fn same_sum(a: Seq<Term>, b: Seq<Term>, p: nat) -> bool {
    forall|w: FlatVariable| #[trigger] total(a, w, p) == total(b, w, p)
}

/// Whether the terms are in the order of their wires, each wire once.
pub open spec fn ordered(terms: Seq<Term>) -> bool {
    forall|i: int, j: int|
        0 <= i < j < terms.len() ==> (#[trigger] terms[i]).0.id < (#[trigger] terms[j]).0.id
}

/// Whether every coefficient is a non-zero number of the field.
pub open spec fn non_zero(terms: Seq<Term>, p: nat) -> bool {
    forall|i: int| 0 <= i < terms.len() ==> 0 < (#[trigger] terms[i]).1 < p
}

/// Whether the terms are a canonical form: in the order of their wires,
/// each wire once, no coefficient zero.
pub open spec fn canonical(terms: Seq<Term>, p: nat) -> bool {
    ordered(terms) && non_zero(terms, p)
}

/// Whether a term of the sum is a multiple of the wire `w`.
pub open spec fn mentions(terms: Seq<Term>, w: FlatVariable) -> bool {
    exists|i: int| 0 <= i < terms.len() && (#[trigger] terms[i]).0 == w
}

/// The coefficients of a sum are numbers of the field.
pub proof fn lemma_total_bound(terms: Seq<Term>, w: FlatVariable, p: nat)
    requires
        p >= 2,
    ensures
        total(terms, w, p) < p,
    decreases terms.len(),
{
    if terms.len() > 0 {
        let x = total(terms.drop_last(), w, p) + if terms.last().0 == w {
            terms.last().1
        } else {
            0
        };
        lemma_mod_bound(x as int, p as int);
    }
}

/// A wire that no term mentions has the coefficient zero.
pub proof fn lemma_total_absent(terms: Seq<Term>, w: FlatVariable, p: nat)
    requires
        p >= 2,
        !mentions(terms, w),
    ensures
        total(terms, w, p) == 0,
    decreases terms.len(),
{
    if terms.len() > 0 {
        assert(terms.last().0 != w) by {
            assert(terms[terms.len() - 1].0 != w);
        }
        assert forall|i: int| 0 <= i < terms.drop_last().len() implies (
        #[trigger] terms.drop_last()[i]).0 != w by {
            assert(terms[i].0 != w);
        }
        lemma_total_absent(terms.drop_last(), w, p);
        lemma_small_mod(0, p);
    }
}

/// The coefficient of a wire in the sum of two sums is the sum of its
/// coefficients.
pub proof fn lemma_total_concat(a: Seq<Term>, b: Seq<Term>, w: FlatVariable, p: nat)
    requires
        p >= 2,
    ensures
        total(a + b, w, p) == (total(a, w, p) + total(b, w, p)) % p,
    decreases b.len(),
{
    if b.len() == 0 {
        assert(a + b =~= a);
        lemma_total_bound(a, w, p);
        lemma_small_mod(total(a, w, p), p);
    } else {
        let last = if b.last().0 == w {
            b.last().1
        } else {
            0
        };
        assert((a + b).drop_last() =~= a + b.drop_last());
        assert((a + b).last() == b.last());
        lemma_total_concat(a, b.drop_last(), w, p);
        let ta = total(a, w, p) as int;
        let tb = total(b.drop_last(), w, p) as int;
        let pi = p as int;
        // ((ta + tb) % p + last) % p == (ta + (tb + last) % p) % p
        lemma_add_mod_noop(ta + tb, last as int, pi);
        lemma_add_mod_noop(ta, tb + last, pi);
        lemma_mod_twice(ta + tb, pi);
        lemma_mod_twice(tb + last, pi);
        lemma_add_mod_noop((ta + tb) % pi, last as int, pi);
        lemma_add_mod_noop(ta, (tb + last) % pi, pi);
    }
}

/// The coefficient of a wire in a sum of one term.
pub proof fn lemma_total_one(t: Term, w: FlatVariable, p: nat)
    requires
        p >= 2,
    ensures
        total(seq![t], w, p) == if t.0 == w {
            t.1 % p
        } else {
            0
        },
{
    let s = seq![t];
    assert(s.drop_last() =~= Seq::<Term>::empty());
    assert(total(s.drop_last(), w, p) == 0);
    assert(s.last() == t);
    if t.0 != w {
        lemma_small_mod(0, p);
    }
}

/// In a canonical form the coefficient of a wire is the coefficient of the
/// term of that wire.
pub proof fn lemma_total_canonical(terms: Seq<Term>, i: int, p: nat)
    requires
        p >= 2,
        canonical(terms, p),
        0 <= i < terms.len(),
    ensures
        total(terms, terms[i].0, p) == terms[i].1,
    decreases terms.len(),
{
    let w = terms[i].0;
    let rest = terms.drop_last();
    assert(canonical(rest, p)) by {
        assert forall|a: int, b: int| 0 <= a < b < rest.len() implies (#[trigger] rest[a]).0.id < (
        #[trigger] rest[b]).0.id by {
            assert(terms[a].0.id < terms[b].0.id);
        }
        assert forall|a: int| 0 <= a < rest.len() implies 0 < (#[trigger] rest[a]).1 < p by {
            assert(0 < terms[a].1 < p);
        }
    }
    if i == terms.len() - 1 {
        assert(!mentions(rest, w)) by {
            assert forall|a: int| 0 <= a < rest.len() implies (#[trigger] rest[a]).0 != w by {
                assert(terms[a].0.id < terms[i].0.id);
            }
        }
        lemma_total_absent(rest, w, p);
        assert(0 < terms[i].1 < p);
        lemma_small_mod(terms[i].1, p);
    } else {
        assert(terms[i].0.id < terms[terms.len() - 1].0.id);
        assert(rest[i] == terms[i]);
        lemma_total_canonical(rest, i, p);
        assert(0 < terms[i].1 < p);
        lemma_small_mod(terms[i].1, p);
    }
}

/// Canonical forms of the same sum are equal.
pub proof fn lemma_canonical_unique(a: Seq<Term>, b: Seq<Term>, p: nat)
    requires
        p >= 2,
        canonical(a, p),
        canonical(b, p),
        same_sum(a, b, p),
    ensures
        a == b,
    decreases a.len() + b.len(),
{
    if a.len() == 0 || b.len() == 0 {
        if a.len() > 0 {
            let w = a.last().0;
            lemma_total_canonical(a, a.len() - 1, p);
            lemma_total_absent(b, w, p);
            assert(total(a, w, p) == total(b, w, p));
            assert(0 < a[a.len() - 1].1);
            assert(false);
        }
        if b.len() > 0 {
            let w = b.last().0;
            lemma_total_canonical(b, b.len() - 1, p);
            lemma_total_absent(a, w, p);
            assert(total(a, w, p) == total(b, w, p));
            assert(0 < b[b.len() - 1].1);
            assert(false);
        }
        assert(a =~= b);
    } else {
        let wa = a.last().0;
        let wb = b.last().0;
        lemma_total_canonical(a, a.len() - 1, p);
        lemma_total_canonical(b, b.len() - 1, p);
        assert(0 < a[a.len() - 1].1 < p);
        assert(0 < b[b.len() - 1].1 < p);
        if wa.id < wb.id {
            assert(!mentions(a, wb)) by {
                assert forall|i: int| 0 <= i < a.len() implies (#[trigger] a[i]).0 != wb by {
                    if i < a.len() - 1 {
                        assert(a[i].0.id < a[a.len() - 1].0.id);
                    }
                }
            }
            lemma_total_absent(a, wb, p);
            assert(total(a, wb, p) == total(b, wb, p));
            assert(false);
        }
        if wb.id < wa.id {
            assert(!mentions(b, wa)) by {
                assert forall|i: int| 0 <= i < b.len() implies (#[trigger] b[i]).0 != wa by {
                    if i < b.len() - 1 {
                        assert(b[i].0.id < b[b.len() - 1].0.id);
                    }
                }
            }
            lemma_total_absent(b, wa, p);
            assert(total(a, wa, p) == total(b, wa, p));
            assert(false);
        }
        assert(wa == wb);
        assert(total(a, wa, p) == total(b, wa, p));
        assert(a.last() == b.last());
        let ra = a.drop_last();
        let rb = b.drop_last();
        assert(canonical(ra, p)) by {
            assert forall|i: int, j: int| 0 <= i < j < ra.len() implies (#[trigger] ra[i]).0.id < (
            #[trigger] ra[j]).0.id by {
                assert(a[i].0.id < a[j].0.id);
            }
            assert forall|i: int| 0 <= i < ra.len() implies 0 < (#[trigger] ra[i]).1 < p by {
                assert(0 < a[i].1 < p);
            }
        }
        assert(canonical(rb, p)) by {
            assert forall|i: int, j: int| 0 <= i < j < rb.len() implies (#[trigger] rb[i]).0.id < (
            #[trigger] rb[j]).0.id by {
                assert(b[i].0.id < b[j].0.id);
            }
            assert forall|i: int| 0 <= i < rb.len() implies 0 < (#[trigger] rb[i]).1 < p by {
                assert(0 < b[i].1 < p);
            }
        }
        assert forall|w: FlatVariable| #[trigger] total(ra, w, p) == total(rb, w, p) by {
            if w == wa {
                assert(!mentions(ra, w)) by {
                    assert forall|i: int| 0 <= i < ra.len() implies (#[trigger] ra[i]).0 != w by {
                        assert(a[i].0.id < a[a.len() - 1].0.id);
                    }
                }
                assert(!mentions(rb, w)) by {
                    assert forall|i: int| 0 <= i < rb.len() implies (#[trigger] rb[i]).0 != w by {
                        assert(b[i].0.id < b[b.len() - 1].0.id);
                    }
                }
                lemma_total_absent(ra, w, p);
                lemma_total_absent(rb, w, p);
            } else {
                assert(total(a, w, p) == total(b, w, p));
                lemma_total_bound(ra, w, p);
                lemma_total_bound(rb, w, p);
                lemma_small_mod(total(ra, w, p), p);
                lemma_small_mod(total(rb, w, p), p);
            }
        }
        lemma_canonical_unique(ra, rb, p);
        assert(a =~= ra.push(a.last()));
        assert(b =~= rb.push(b.last()));
    }
}

/// What a term adds to a sum, wherever it is put.
pub proof fn lemma_total_insert(terms: Seq<Term>, at: int, t: Term, w: FlatVariable, p: nat)
    requires
        p >= 2,
        0 <= at <= terms.len(),
    ensures
        total(terms.insert(at, t), w, p) == (total(terms, w, p) + if t.0 == w {
            t.1
        } else {
            0
        }) % p,
{
    let a = terms.take(at);
    let b = terms.skip(at);
    let delta = if t.0 == w {
        t.1
    } else {
        0
    };
    assert(terms =~= a + b);
    assert(terms.insert(at, t) =~= (a + seq![t]) + b);
    lemma_total_concat(a, b, w, p);
    lemma_total_concat(a, seq![t], w, p);
    lemma_total_concat(a + seq![t], b, w, p);
    lemma_total_one(t, w, p);
    let ta = total(a, w, p) as int;
    let tb = total(b, w, p) as int;
    let pi = p as int;
    let d = delta as int;
    // ((ta + d % p) % p + tb) % p == ((ta + tb) % p + d) % p
    lemma_add_mod_noop(ta, d, pi);
    lemma_add_mod_noop(ta, d % pi, pi);
    lemma_mod_twice(d, pi);
    lemma_add_mod_noop(ta + d, tb, pi);
    lemma_add_mod_noop((ta + d) % pi, tb, pi);
    lemma_mod_twice(ta + d, pi);
    lemma_add_mod_noop(ta + tb, d, pi);
    lemma_add_mod_noop((ta + tb) % pi, d, pi);
    lemma_mod_twice(ta + tb, pi);
    assert(total(a + seq![t], w, p) == (ta + d) % pi) by {
        if t.0 == w {
            assert(total(seq![t], w, p) == t.1 % p);
        } else {
            lemma_small_mod(0, p);
        }
    }
}

/// A canonical form with one more term at the place of its wire is
/// canonical.
pub proof fn lemma_canonical_insert(terms: Seq<Term>, at: int, t: Term, p: nat)
    requires
        canonical(terms, p),
        0 < t.1 < p,
        0 <= at <= terms.len(),
        forall|i: int| 0 <= i < at ==> (#[trigger] terms[i]).0.id < t.0.id,
        forall|i: int| at <= i < terms.len() ==> t.0.id < (#[trigger] terms[i]).0.id,
    ensures
        canonical(terms.insert(at, t), p),
{
    let r = terms.insert(at, t);
    assert forall|i: int, j: int| 0 <= i < j < r.len() implies (#[trigger] r[i]).0.id < (
    #[trigger] r[j]).0.id by {
        let i0 = if i < at {
            i
        } else {
            i - 1
        };
        let j0 = if j < at {
            j
        } else {
            j - 1
        };
        if i == at {
            assert(r[j] == terms[j0]);
            assert(t.0.id < terms[j0].0.id);
        } else if j == at {
            assert(r[i] == terms[i0]);
            assert(terms[i0].0.id < t.0.id);
        } else {
            assert(r[i] == terms[i0]);
            assert(r[j] == terms[j0]);
            assert(terms[i0].0.id < terms[j0].0.id);
        }
    }
    assert forall|i: int| 0 <= i < r.len() implies 0 < (#[trigger] r[i]).1 < p by {
        if i != at {
            let i0 = if i < at {
                i
            } else {
                i - 1
            };
            assert(r[i] == terms[i0]);
            assert(0 < terms[i0].1 < p);
        }
    }
}

/// A canonical form without one of its terms is canonical, and the wire
/// of that term has the coefficient zero in it; every other wire keeps its
/// coefficient.
pub proof fn lemma_canonical_remove(terms: Seq<Term>, at: int, w: FlatVariable, p: nat)
    requires
        p >= 2,
        canonical(terms, p),
        0 <= at < terms.len(),
    ensures
        canonical(terms.remove(at), p),
        total(terms.remove(at), w, p) == if w == terms[at].0 {
            0
        } else {
            total(terms, w, p)
        },
{
    let r = terms.remove(at);
    assert forall|i: int, j: int| 0 <= i < j < r.len() implies (#[trigger] r[i]).0.id < (
    #[trigger] r[j]).0.id by {
        let i0 = if i < at {
            i
        } else {
            i + 1
        };
        let j0 = if j < at {
            j
        } else {
            j + 1
        };
        assert(r[i] == terms[i0]);
        assert(r[j] == terms[j0]);
        assert(terms[i0].0.id < terms[j0].0.id);
    }
    assert forall|i: int| 0 <= i < r.len() implies 0 < (#[trigger] r[i]).1 < p by {
        let i0 = if i < at {
            i
        } else {
            i + 1
        };
        assert(r[i] == terms[i0]);
        assert(0 < terms[i0].1 < p);
    }
    if w == terms[at].0 {
        assert(!mentions(r, w)) by {
            assert forall|i: int| 0 <= i < r.len() implies (#[trigger] r[i]).0 != w by {
                let i0 = if i < at {
                    i
                } else {
                    i + 1
                };
                assert(r[i] == terms[i0]);
                if i0 < at {
                    assert(terms[i0].0.id < terms[at].0.id);
                } else {
                    assert(terms[at].0.id < terms[i0].0.id);
                }
            }
        }
        lemma_total_absent(r, w, p);
    } else {
        assert(terms =~= r.insert(at, terms[at]));
        lemma_total_insert(r, at, terms[at], w, p);
        lemma_total_bound(r, w, p);
        lemma_small_mod(total(r, w, p), p);
    }
}

/// A canonical form with another non-zero coefficient at one of its terms
/// is canonical; the wire of that term has the new coefficient in it, and
/// every other wire keeps its coefficient.
pub proof fn lemma_canonical_update(terms: Seq<Term>, at: int, c: nat, w: FlatVariable, p: nat)
    requires
        p >= 2,
        canonical(terms, p),
        0 <= at < terms.len(),
        0 < c < p,
    ensures
        canonical(terms.update(at, (terms[at].0, c)), p),
        total(terms.update(at, (terms[at].0, c)), w, p) == if w == terms[at].0 {
            c
        } else {
            total(terms, w, p)
        },
{
    let t = (terms[at].0, c);
    let removed = terms.remove(at);
    let r = terms.update(at, t);
    lemma_canonical_remove(terms, at, w, p);
    assert(r =~= removed.insert(at, t));
    assert forall|i: int| 0 <= i < at implies (#[trigger] removed[i]).0.id < t.0.id by {
        assert(removed[i] == terms[i]);
        assert(terms[i].0.id < terms[at].0.id);
    }
    assert forall|i: int| at <= i < removed.len() implies t.0.id < (#[trigger] removed[i]).0.id by {
        assert(removed[i] == terms[i + 1]);
        assert(terms[at].0.id < terms[i + 1].0.id);
    }
    lemma_canonical_insert(removed, at, t, p);
    lemma_total_insert(removed, at, t, w, p);
    if w == terms[at].0 {
        lemma_small_mod(c, p);
    } else {
        lemma_total_bound(terms, w, p);
        lemma_small_mod(total(terms, w, p), p);
    }
}

/// The canonical form of a sum: the canonical terms that add up to the
/// same sum.
pub open spec fn canon(terms: Seq<Term>, p: nat) -> Seq<Term> {
    choose|c: Seq<Term>| canonical(c, p) && same_sum(c, terms, p)
}

/// Canonical terms that add up to a sum are its canonical form.
pub proof fn lemma_canon(terms: Seq<Term>, c: Seq<Term>, p: nat)
    requires
        p >= 2,
        canonical(c, p),
        same_sum(c, terms, p),
    ensures
        canon(terms, p) == c,
{
    let d = canon(terms, p);
    assert(canonical(d, p) && same_sum(d, terms, p));
    assert forall|w: FlatVariable| #[trigger] total(d, w, p) == total(c, w, p) by {
        assert(total(d, w, p) == total(terms, w, p));
        assert(total(c, w, p) == total(terms, w, p));
    }
    lemma_canonical_unique(d, c, p);
}

} // verus!
