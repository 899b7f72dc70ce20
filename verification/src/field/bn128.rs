//! The scalar field of the curve BN128.

use vstd::prelude::*;
use vstd::std_specs::cmp::PartialEqSpecImpl;
use vstd::arithmetic::div_mod::{
    lemma_add_mod_noop, lemma_fundamental_div_mod, lemma_mod_bound, lemma_mod_multiples_vanish,
    lemma_mod_twice, lemma_mul_mod_noop_general, lemma_small_mod, lemma_sub_mod_noop,
};
use crate::field::raw::{U256, base};
use crate::field::{Field, is_inverse};
use crate::natural::{le_bytes_to_dec, le_value, lemma_le_value_push, pow256};

verus! {

/// An element of the field: a number of 256 bits, which stands for its
/// remainder modulo the modulus of the field.
#[derive(Clone, Copy, Debug)]
pub struct Bn128Field {
    pub raw: U256,
}

impl PartialEq for Bn128Field {
    fn eq(&self, other: &Self) -> (r: bool) {
        <Bn128Field as Field>::same(self, other)
    }
}

impl PartialEqSpecImpl for Bn128Field {
    open spec fn obeys_eq_spec() -> bool {
        true
    }

    open spec fn eq_spec(&self, other: &Self) -> bool {
        self.value() == other.value()
    }
}

/// The modulus of the field, as limbs.
pub open spec fn modulus_limbs() -> U256 {
    U256 {
        l0: 0x43e1f593f0000001,
        l1: 0x2833e84879b97091,
        l2: 0xb85045b68181585d,
        l3: 0x30644e72e131a029,
    }
}

/// The modulus of the field:
/// 21888242871839275222246405745257275088548364400416034343698204186575808495617.
pub open spec fn bn128_modulus() -> nat {
    modulus_limbs().value()
}

/// The modulus as a number of 256 bits.
pub fn modulus() -> (r: U256)
    ensures
        r == modulus_limbs(),
        r.value() == bn128_modulus(),
{
    U256 {
        l0: 0x43e1f593f0000001,
        l1: 0x2833e84879b97091,
        l2: 0xb85045b68181585d,
        l3: 0x30644e72e131a029,
    }
}

/// The modulus is below 2 to the power 255, so that the sum of two numbers
/// below it is a number of 256 bits.
pub proof fn lemma_modulus_bounds()
    ensures
        2 <= bn128_modulus(),
        bn128_modulus() + bn128_modulus() < base() * base() * base() * base(),
        bn128_modulus() < base() * base() * base() * base(),
{
    assert(base() * base() * base() * base() == base() * (base() * (base() * base())))
        by (nonlinear_arith);
}

/// The remainder of a number of 256 bits modulo the modulus.
pub fn reduced(x: U256) -> (r: U256)
    ensures
        r.value() == x.value() % bn128_modulus(),
        r.value() < bn128_modulus(),
{
    let p = modulus();
    let mut r = x;
    proof {
        lemma_modulus_bounds();
    }
    while r.at_least(&p)
        invariant
            p == modulus_limbs(),
            r.value() % bn128_modulus() == x.value() % bn128_modulus(),
        decreases r.value(),
    {
        proof {
            lemma_mod_multiples_vanish(-1, r.value() as int, bn128_modulus() as int);
        }
        r = r.minus(&p);
    }
    proof {
        lemma_small_mod(r.value(), bn128_modulus());
    }
    r
}

/// One step of multiplying by doubling.
proof fn lemma_mul_step(r: nat, b: nat, n: nat, p: nat)
    requires
        p >= 2,
    ensures
        ((r + (n % 2) * b) % p + ((b + b) % p) * (n / 2)) % p == (r + b * n) % p,
{
    let pi = p as int;
    let h = (n / 2) as int;
    let bit = (n % 2) as int;
    let ri = r as int;
    let bi = b as int;
    assert(n == 2 * h + bit);
    assert(ri + bi * (2 * h + bit) == (ri + bit * bi) + (bi + bi) * h) by (nonlinear_arith);
    // ((x % p) + (y % p) * h) % p == (x + y * h) % p
    let x = ri + bit * bi;
    let y = bi + bi;
    lemma_add_mod_noop(x, y * h, pi);
    lemma_add_mod_noop(x % pi, (y % pi) * h, pi);
    lemma_mod_twice(x, pi);
    lemma_mul_mod_noop_general(y, h, pi);
}

/// The modulus is odd.
proof fn lemma_modulus_odd()
    ensures
        bn128_modulus() % 2 == 1,
{
    let rest = modulus_limbs().l1 as nat + base() * (modulus_limbs().l2 as nat + base()
        * modulus_limbs().l3 as nat);
    assert(bn128_modulus() == 0x43e1f593f0000001 + base() * rest);
    assert(base() * rest == 2 * (0x8000_0000_0000_0000 * rest)) by (nonlinear_arith)
        requires
            base() == 0x1_0000_0000_0000_0000,
    ;
}

/// Halving under a coefficient: where `x * a` is `u` modulo `p` and `u` is
/// even, `x` times the inverse of two, times `a`, is the half of `u`.
proof fn lemma_halved(x: nat, a: nat, u: nat, half: nat, p: nat)
    requires
        p >= 2,
        (x * a) % p == u % p,
        u % 2 == 0,
        (2 * half) % p == 1,
    ensures
        (((x * half) % p) * a) % p == (u / 2) % p,
{
    let pi = p as int;
    let h = (u / 2) as int;
    let xi = x as int;
    let ai = a as int;
    let ui = u as int;
    let hf = half as int;
    lemma_mul_mod_noop_general(xi * hf, ai, pi);
    assert((xi * hf) * ai == hf * (xi * ai)) by (nonlinear_arith);
    lemma_mul_mod_noop_general(hf, xi * ai, pi);
    lemma_mul_mod_noop_general(hf, ui, pi);
    assert(hf * ui == (2 * hf) * h) by (nonlinear_arith)
        requires
            ui == 2 * h,
    ;
    lemma_mul_mod_noop_general(2 * hf, h, pi);
    assert(1 * h == h) by (nonlinear_arith);
}

/// Subtracting under coefficients: where `x * a` is `u` and `y * a` is `v`
/// modulo `p`, the difference of `x` and `y`, times `a`, is the difference
/// of `u` and `v`.
proof fn lemma_subtracted(x: nat, y: nat, a: nat, u: nat, v: nat, p: nat)
    requires
        p >= 2,
        (x * a) % p == u % p,
        (y * a) % p == v % p,
        u >= v,
    ensures
        (((x - y) % (p as int)) * a) % (p as int) == (u - v) % (p as int),
{
    let pi = p as int;
    let xi = x as int;
    let yi = y as int;
    let ai = a as int;
    lemma_mul_mod_noop_general(xi - yi, ai, pi);
    assert((xi - yi) * ai == xi * ai - yi * ai) by (nonlinear_arith);
    lemma_sub_mod_noop(xi * ai, yi * ai, pi);
    lemma_sub_mod_noop(u as int, v as int, pi);
}

/// A number that divides `a` and `p` is one, where `a` has an inverse
/// modulo `p`.
proof fn lemma_unit(a: nat, p: nat, g: nat, ca: int, cp: int, i: nat)
    requires
        p >= 2,
        g >= 1,
        a == ca * g,
        p == cp * g,
        (a * i) % p == 1,
    ensures
        g == 1,
{
    let n = (a * i) as int;
    let q = n / (p as int);
    lemma_fundamental_div_mod(n, p as int);
    assert(n == (p as int) * q + 1);
    let m = ca * i - cp * q;
    assert(g * m == 1) by (nonlinear_arith)
        requires
            a == ca * g,
            p == cp * g,
            a * i == p * q + 1,
            m == ca * i - cp * q,
    ;
    assert(g == 1) by (nonlinear_arith)
        requires
            g >= 1,
            g * m == 1,
    ;
}

impl Bn128Field {
    /// The element that stands for a number.
    pub fn from(n: i32) -> (r: Bn128Field)
        ensures
            r.value() == (n as int) % (bn128_modulus() as int),
    {
        <Bn128Field as Field>::from_i32(n)
    }
}

impl Field for Bn128Field {
    open spec fn modulus() -> nat {
        bn128_modulus()
    }

    open spec fn value(&self) -> nat {
        self.raw.value() % bn128_modulus()
    }

    proof fn lemma_modulus() {
        lemma_modulus_bounds();
    }

    proof fn lemma_value(&self) {
        lemma_modulus_bounds();
        lemma_mod_bound(self.raw.value() as int, bn128_modulus() as int);
    }

    fn zero() -> (r: Self) {
        proof {
            lemma_modulus_bounds();
            lemma_small_mod(0, bn128_modulus());
        }
        Bn128Field { raw: U256::from_u64(0) }
    }

    fn one() -> (r: Self) {
        proof {
            lemma_modulus_bounds();
            lemma_small_mod(1, bn128_modulus());
        }
        Bn128Field { raw: U256::from_u64(1) }
    }

    fn min_value() -> (r: Self) {
        Self::zero()
    }

    fn max_value() -> (r: Self) {
        let raw = U256 {
            l0: 0x43e1f593f0000000,
            l1: 0x2833e84879b97091,
            l2: 0xb85045b68181585d,
            l3: 0x30644e72e131a029,
        };
        proof {
            lemma_modulus_bounds();
            lemma_small_mod(raw.value(), bn128_modulus());
        }
        Bn128Field { raw }
    }

    fn from_usize(n: usize) -> (r: Self) {
        Bn128Field { raw: U256::from_u64(n as u64) }
    }

    fn from_i32(n: i32) -> (r: Self) {
        if n >= 0 {
            Bn128Field { raw: U256::from_u64(n as u64) }
        } else {
            let m: u64 = (-(n as i64)) as u64;
            let positive = Bn128Field { raw: U256::from_u64(m) };
            let r = Self::zero().sub(&positive);
            proof {
                let pi = bn128_modulus() as int;
                lemma_modulus_bounds();
                lemma_small_mod(m as nat, bn128_modulus());
            }
            r
        }
    }

    fn try_from_le_bytes(bytes: &Vec<u8>) -> (r: Option<Self>) {
        let p = modulus();
        let mut acc = U256::from_u64(0);
        let mut i: usize = bytes.len();
        proof {
            lemma_modulus_bounds();
            assert(bytes@.skip(bytes.len() as int) =~= Seq::<u8>::empty());
        }
        while i > 0
            invariant
                i <= bytes.len(),
                p == modulus_limbs(),
                acc.value() == le_value(bytes@.skip(i as int)),
                acc.value() < bn128_modulus(),
            decreases i,
        {
            proof {
                let rest = bytes@.skip(i - 1);
                assert(rest.drop_first() =~= bytes@.skip(i as int));
                assert(rest[0] == bytes[i - 1]);
                lemma_le_value_grows(bytes@, (i - 1) as int);
            }
            if acc.l3 >= 0x100_0000_0000_0000 {
                proof {
                    assert(acc.value() * 256 >= bn128_modulus()) by {
                        assert(base() * (base() * (base() * (0x100_0000_0000_0000 * 256)))
                            >= bn128_modulus());
                    }
                }
                return None;
            }
            acc = acc.with_low_byte(bytes[i - 1]);
            if acc.at_least(&p) {
                return None;
            }
            i -= 1;
        }
        proof {
            assert(bytes@.skip(0) =~= bytes@);
            lemma_small_mod(acc.value(), bn128_modulus());
        }
        Some(Bn128Field { raw: acc })
    }

    fn to_le_bytes(&self) -> (r: Vec<u8>) {
        let start = reduced(self.raw);
        let mut x = start;
        let mut out: Vec<u8> = Vec::new();
        let mut i: usize = 0;
        let ghost mut weight: nat = 1;
        while i < 32
            invariant
                i <= 32,
                out.len() == i,
                weight == pow256(i as nat),
                le_value(out@) + x.value() * weight == start.value(),
            decreases 32 - i,
        {
            let b: u8 = (x.l0 % 256) as u8;
            proof {
                lemma_le_value_push(out@, b);
                assert(b as nat == x.value() % 256);
                assert(x.value() * weight == b as nat * weight + (x.value() / 256) * (256
                    * weight)) by (nonlinear_arith)
                    requires
                        b as nat == x.value() % 256,
                ;
                weight = 256 * weight;
            }
            out.push(b);
            x = x.without_low_byte();
            i += 1;
        }
        proof {
            lemma_pow256_32();
            assert(base() * base() * base() * base() == base() * (base() * (base() * base())))
                by (nonlinear_arith);
            assert(x.value() * weight == 0) by (nonlinear_arith)
                requires
                    le_value(out@) + x.value() * weight == start.value(),
                    weight == base() * base() * base() * base(),
                    start.value() < base() * base() * base() * base(),
            ;
        }
        out
    }

    fn to_usize(&self) -> (r: Option<usize>) {
        let x = reduced(self.raw);
        if x.l1 == 0 && x.l2 == 0 && x.l3 == 0 && x.l0 <= usize::MAX as u64 {
            Some(x.l0 as usize)
        } else {
            None
        }
    }

    fn duplicate(&self) -> (r: Self) {
        Bn128Field { raw: self.raw }
    }

    fn is_zero(&self) -> (r: bool) {
        reduced(self.raw).is_zero()
    }

    fn same(&self, other: &Self) -> (r: bool) {
        reduced(self.raw).same(&reduced(other.raw))
    }

    fn add(&self, other: &Self) -> (r: Self) {
        let p = modulus();
        let a = reduced(self.raw);
        let b = reduced(other.raw);
        proof {
            lemma_modulus_bounds();
        }
        let s = a.plus(&b);
        let raw = if s.at_least(&p) {
            proof {
                lemma_mod_multiples_vanish(-1, s.value() as int, bn128_modulus() as int);
            }
            s.minus(&p)
        } else {
            s
        };
        proof {
            lemma_small_mod(raw.value(), bn128_modulus());
        }
        Bn128Field { raw }
    }

    fn sub(&self, other: &Self) -> (r: Self) {
        let p = modulus();
        let a = reduced(self.raw);
        let b = reduced(other.raw);
        proof {
            lemma_modulus_bounds();
        }
        let lifted = a.plus(&p);
        let d = lifted.minus(&b);
        let raw = if d.at_least(&p) {
            d.minus(&p)
        } else {
            d
        };
        proof {
            let pi = bn128_modulus() as int;
            let x = a.value() as int - b.value() as int;
            lemma_small_mod(raw.value(), bn128_modulus());
            if d.value() >= bn128_modulus() {
                assert(raw.value() == x);
                lemma_small_mod(x as nat, bn128_modulus());
            } else {
                assert(raw.value() == x + pi);
                lemma_mod_multiples_vanish(1, x, pi);
            }
        }
        Bn128Field { raw }
    }

    fn mul(&self, other: &Self) -> (r: Self) {
        let a = Bn128Field { raw: reduced(self.raw) };
        let mut n = reduced(other.raw);
        let mut b = a;
        let mut result = Self::zero();
        let ghost target = (self.value() * other.value()) % bn128_modulus();
        proof {
            lemma_modulus_bounds();
            lemma_small_mod(a.raw.value(), bn128_modulus());
            assert(0 + a.value() * n.value() == self.value() * other.value());
        }
        while !n.is_zero()
            invariant
                (result.value() + b.value() * n.value()) % bn128_modulus() == target,
            decreases n.value(),
        {
            proof {
                lemma_modulus_bounds();
                lemma_mul_step(result.value(), b.value(), n.value(), bn128_modulus());
            }
            let ghost before = result.value();
            let ghost bit = n.value() % 2;
            if n.is_odd() {
                result = result.add(&b);
                assert(bit == 1);
                assert(1 * b.value() == b.value());
            } else {
                proof {
                    result.lemma_value();
                    lemma_small_mod(before, bn128_modulus());
                    assert(bit == 0);
                    assert(0 * b.value() == 0);
                }
            }
            assert(result.value() == (before + bit * b.value()) % bn128_modulus());
            b = b.add(&b);
            n = n.half();
        }
        proof {
            assert(b.value() * 0 == 0);
            result.lemma_value();
            lemma_small_mod(result.value(), bn128_modulus());
        }
        result
    }

    fn inverse_mul(&self) -> (r: Option<Self>) {
        let p = modulus();
        let a = reduced(self.raw);
        let ghost av = self.value();
        let ghost pv = bn128_modulus();
        proof {
            lemma_modulus_bounds();
            lemma_modulus_odd();
        }
        if a.is_zero() {
            proof {
                assert forall|i: nat| !is_inverse(av, i, pv) by {
                    assert(av * i == 0) by (nonlinear_arith)
                        requires
                            av == 0,
                    ;
                    lemma_small_mod(0, pv);
                }
            }
            return None;
        }
        let one = U256::from_u64(1);
        let half = Bn128Field { raw: p.plus(&one).half() };
        proof {
            let h = (pv + 1) / 2;
            assert(half.raw.value() == h);
            lemma_small_mod(h, pv);
            assert(2 * h == pv + 1);
            lemma_mod_multiples_vanish(1, 1, pv as int);
            lemma_small_mod(1, pv);
            assert((2 * half.value()) % pv == 1);
        }
        let mut u = a;
        let mut v = p;
        let mut x = <Bn128Field as Field>::one();
        let mut y = <Bn128Field as Field>::zero();
        let ghost mut au: int = 1;
        let ghost mut ab: int = 0;
        let ghost mut pu: int = 0;
        let ghost mut pb: int = 1;
        proof {
            assert(1 * av == av) by (nonlinear_arith);
            assert(0 * av == 0) by (nonlinear_arith);
            lemma_mod_multiples_vanish(-1, pv as int, pv as int);
            assert(av == 1 * u.value() + 0 * v.value()) by (nonlinear_arith)
                requires
                    av == u.value(),
            ;
            assert(pv == 0 * u.value() + 1 * v.value()) by (nonlinear_arith)
                requires
                    pv == v.value(),
            ;
        }
        while !u.same(&v)
            invariant
                pv == bn128_modulus(),
                pv >= 2,
                av == self.value(),
                u.value() >= 1,
                v.value() >= 1,
                (2 * half.value()) % pv == 1,
                (x.value() * av) % pv == u.value() % pv,
                (y.value() * av) % pv == v.value() % pv,
                av == au * u.value() + ab * v.value(),
                pv == pu * u.value() + pb * v.value(),
            decreases u.value() + v.value(),
        {
            let ghost uv = u.value();
            let ghost vv = v.value();
            if !u.is_odd() {
                proof {
                    lemma_halved(x.value(), av, uv, half.value(), pv);
                    assert(av == (2 * au) * (uv / 2) + ab * vv) by (nonlinear_arith)
                        requires
                            av == au * uv + ab * vv,
                            uv == 2 * (uv / 2),
                    ;
                    assert(pv == (2 * pu) * (uv / 2) + pb * vv) by (nonlinear_arith)
                        requires
                            pv == pu * uv + pb * vv,
                            uv == 2 * (uv / 2),
                    ;
                    au = 2 * au;
                    pu = 2 * pu;
                }
                u = u.half();
                x = x.mul(&half);
            } else if !v.is_odd() {
                proof {
                    lemma_halved(y.value(), av, vv, half.value(), pv);
                    assert(av == au * uv + (2 * ab) * (vv / 2)) by (nonlinear_arith)
                        requires
                            av == au * uv + ab * vv,
                            vv == 2 * (vv / 2),
                    ;
                    assert(pv == pu * uv + (2 * pb) * (vv / 2)) by (nonlinear_arith)
                        requires
                            pv == pu * uv + pb * vv,
                            vv == 2 * (vv / 2),
                    ;
                    ab = 2 * ab;
                    pb = 2 * pb;
                }
                v = v.half();
                y = y.mul(&half);
            } else if u.at_least(&v) {
                proof {
                    lemma_subtracted(x.value(), y.value(), av, uv, vv, pv);
                    assert(av == au * (uv - vv) + (au + ab) * vv) by (nonlinear_arith)
                        requires
                            av == au * uv + ab * vv,
                    ;
                    assert(pv == pu * (uv - vv) + (pu + pb) * vv) by (nonlinear_arith)
                        requires
                            pv == pu * uv + pb * vv,
                    ;
                    ab = au + ab;
                    pb = pu + pb;
                }
                u = u.minus(&v);
                x = x.sub(&y);
            } else {
                proof {
                    lemma_subtracted(y.value(), x.value(), av, vv, uv, pv);
                    assert(av == (au + ab) * uv + ab * (vv - uv)) by (nonlinear_arith)
                        requires
                            av == au * uv + ab * vv,
                    ;
                    assert(pv == (pu + pb) * uv + pb * (vv - uv)) by (nonlinear_arith)
                        requires
                            pv == pu * uv + pb * vv,
                    ;
                    au = au + ab;
                    pu = pu + pb;
                }
                v = v.minus(&u);
                y = y.sub(&x);
            }
        }
        if u.same(&one) {
            proof {
                lemma_small_mod(1, pv);
                x.lemma_value();
                assert(av * x.value() == x.value() * av) by (nonlinear_arith);
            }
            Some(x)
        } else {
            proof {
                let g = u.value();
                assert(av == (au + ab) * g) by (nonlinear_arith)
                    requires
                        av == au * g + ab * g,
                ;
                assert(pv == (pu + pb) * g) by (nonlinear_arith)
                    requires
                        pv == pu * g + pb * g,
                ;
                assert forall|i: nat| !is_inverse(av, i, pv) by {
                    if is_inverse(av, i, pv) {
                        lemma_unit(av, pv, g, au + ab, pu + pb, i);
                    }
                }
            }
            None
        }
    }

    fn to_dec_string(&self) -> (r: String) {
        let bytes = self.to_le_bytes();
        le_bytes_to_dec(&bytes)
    }

    fn to_compact_dec_string(&self) -> (r: String) {
        let x = reduced(self.raw);
        let half = U256 {
            l0: 0xa1f0fac9f8000000,
            l1: 0x9419f4243cdcb848,
            l2: 0xdc2822db40c0ac2e,
            l3: 0x183227397098d014,
        };
        proof {
            lemma_modulus_bounds();
            assert(half.value() == (bn128_modulus() - 1) / 2);
        }
        if half.at_least(&x) {
            self.to_dec_string()
        } else {
            let negative = Bn128Field { raw: modulus().minus(&x) };
            proof {
                lemma_small_mod(negative.raw.value(), bn128_modulus());
            }
            let mut s = String::from_str("(-");
            s.append(negative.to_dec_string().as_str());
            s.append(")");
            s
        }
    }
}

/// The number that a longer end of the bytes stands for is at least the
/// number that a shorter end stands for.
proof fn lemma_le_value_grows(bytes: Seq<u8>, i: int)
    requires
        0 <= i < bytes.len(),
    ensures
        le_value(bytes.skip(i)) == bytes[i] as nat + 256 * le_value(bytes.skip(i + 1)),
        le_value(bytes.skip(i + 1)) <= le_value(bytes.skip(i)),
        le_value(bytes.skip(i)) <= le_value(bytes),
    decreases i,
{
    assert(bytes.skip(i).drop_first() =~= bytes.skip(i + 1));
    assert(bytes.skip(i)[0] == bytes[i]);
    if i > 0 {
        lemma_le_value_grows(bytes, i - 1);
    } else {
        assert(bytes.skip(0) =~= bytes);
    }
}

proof fn lemma_pow256_32()
    ensures
        pow256(32) == base() * base() * base() * base(),
{
    reveal_with_fuel(pow256, 9);
    assert(pow256(8) == base());
    lemma_pow256_add(8, 8);
    lemma_pow256_add(16, 8);
    lemma_pow256_add(24, 8);
    assert(base() * base() * base() * base() == ((base() * base()) * base()) * base());
}

proof fn lemma_pow256_add(a: nat, b: nat)
    ensures
        pow256(a + b) == pow256(a) * pow256(b),
    decreases b,
{
    if b == 0 {
        assert(pow256(a) * 1 == pow256(a));
    } else {
        lemma_pow256_add(a, (b - 1) as nat);
        assert(pow256(a + b) == 256 * pow256((a + b - 1) as nat));
        assert(256 * (pow256(a) * pow256((b - 1) as nat)) == pow256(a) * (256 * pow256(
            (b - 1) as nat,
        ))) by (nonlinear_arith);
    }
}

} // verus!
