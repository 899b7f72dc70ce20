//! Natural numbers of any size, held as little-endian bytes. Field constants
//! reach the analyser in this form, before they are known to fit the field.

use vstd::prelude::*;
use crate::text::dec_string;

verus! {

/// The number that little-endian bytes stand for.
pub open spec fn le_value(bytes: Seq<u8>) -> nat
    decreases bytes.len(),
{
    if bytes.len() == 0 {
        0
    } else {
        bytes[0] as nat + 256 * le_value(bytes.drop_first())
    }
}

/// Appending a byte adds it at the weight of its position.
pub proof fn lemma_le_value_push(bytes: Seq<u8>, b: u8)
    ensures
        le_value(bytes.push(b)) == le_value(bytes) + b as nat * pow256(bytes.len()),
    decreases bytes.len(),
{
    let ext = bytes.push(b);
    if bytes.len() == 0 {
        assert(ext.drop_first() =~= Seq::<u8>::empty());
        assert(le_value(ext) == b as nat + 256 * le_value(ext.drop_first()));
        assert(le_value(ext.drop_first()) == 0);
        assert(pow256(0) == 1);
        assert(le_value(bytes) == 0);
    } else {
        assert(ext.drop_first() =~= bytes.drop_first().push(b));
        lemma_le_value_push(bytes.drop_first(), b);
        let k = (bytes.len() - 1) as nat;
        assert(pow256(bytes.len()) == 256 * pow256(k));
        assert(b as nat * pow256(bytes.len()) == 256 * (b as nat * pow256(k)))
            by (nonlinear_arith)
            requires
                pow256(bytes.len()) == 256 * pow256(k),
        ;
        assert(ext[0] == bytes[0]);
        assert(le_value(ext) == ext[0] as nat + 256 * le_value(ext.drop_first()));
        assert(le_value(bytes) == bytes[0] as nat + 256 * le_value(bytes.drop_first()));
    }
}

/// 256 to the power `n`.
pub open spec fn pow256(n: nat) -> nat
    decreases n,
{
    if n == 0 {
        1
    } else {
        256 * pow256((n - 1) as nat)
    }
}

/// The little-endian bytes of a `u128`, sixteen of them.
pub fn u128_to_le_bytes(n: u128) -> (r: Vec<u8>)
    ensures
        le_value(r@) == n,
        r.len() == 16,
{
    let mut out: Vec<u8> = Vec::new();
    let mut rest: u128 = n;
    let mut i: usize = 0;
    let ghost mut weight: nat = 1;
    while i < 16
        invariant
            i <= 16,
            out.len() == i,
            weight == pow256(i as nat),
            le_value(out@) + rest as nat * weight == n,
        decreases 16 - i,
    {
        let b: u8 = (rest % 256) as u8;
        proof {
            lemma_le_value_push(out@, b);
            assert(rest as nat * weight == b as nat * weight + (rest as nat / 256) * (256 * weight))
                by (nonlinear_arith)
                requires
                    b as nat == rest as nat % 256,
            ;
            weight = 256 * weight;
        }
        out.push(b);
        rest = rest / 256;
        i += 1;
    }
    proof {
        lemma_pow256_16();
        assert(rest as nat * weight == 0) by (nonlinear_arith)
            requires
                le_value(out@) + rest as nat * weight == n,
                weight == 0x1_0000_0000_0000_0000_0000_0000_0000_0000,
                n <= 0xffff_ffff_ffff_ffff_ffff_ffff_ffff_ffff,
        ;
    }
    out
}

proof fn lemma_pow256_16()
    ensures
        pow256(16) == 0x1_0000_0000_0000_0000_0000_0000_0000_0000,
{
    reveal_with_fuel(pow256, 17);
}

/// The decimal numeral of a number given by its little-endian bytes, as
/// `num_bigint::BigUint::to_str_radix` writes it in radix ten after
/// `BigUint::from_bytes_le` has read the bytes: most significant digit first,
/// no leading zeros, `0` for zero.
#[verifier::external_body]
pub(crate) fn le_bytes_to_dec(bytes: &Vec<u8>) -> (r: String)
    ensures
        r@ == dec_string(le_value(bytes@)),
{
    num_bigint::BigUint::from_bytes_le(bytes.as_slice()).to_str_radix(10)
}

} // verus!
