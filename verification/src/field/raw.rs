//! Numbers of 256 bits, as four limbs of 64 bits, least significant first.

use vstd::prelude::*;

verus! {

/// A number below 2 to the power 256.
#[derive(Clone, Copy, Debug, PartialEq, Eq, Hash)]
pub struct U256 {
    pub l0: u64,
    pub l1: u64,
    pub l2: u64,
    pub l3: u64,
}

/// 2 to the power 64.
pub open spec fn base() -> nat {
    0x1_0000_0000_0000_0000
}

impl U256 {
    /// The number that the limbs stand for.
    pub open spec fn value(&self) -> nat {
        self.l0 as nat + base() * (self.l1 as nat + base() * (self.l2 as nat + base()
            * self.l3 as nat))
    }

    pub fn from_u64(n: u64) -> (r: U256)
        ensures
            r.value() == n,
    {
        U256 { l0: n, l1: 0, l2: 0, l3: 0 }
    }

    pub fn is_zero(&self) -> (r: bool)
        ensures
            r == (self.value() == 0),
    {
        self.l0 == 0 && self.l1 == 0 && self.l2 == 0 && self.l3 == 0
    }

    pub fn same(&self, other: &U256) -> (r: bool)
        ensures
            r == (self.value() == other.value()),
            r == (*self == *other),
    {
        self.l0 == other.l0 && self.l1 == other.l1 && self.l2 == other.l2 && self.l3 == other.l3
    }

    /// Whether this number is at least the other.
    pub fn at_least(&self, other: &U256) -> (r: bool)
        ensures
            r == (self.value() >= other.value()),
    {
        if self.l3 != other.l3 {
            self.l3 > other.l3
        } else if self.l2 != other.l2 {
            self.l2 > other.l2
        } else if self.l1 != other.l1 {
            self.l1 > other.l1
        } else {
            self.l0 >= other.l0
        }
    }

    /// The sum of two numbers that stays below 2 to the power 256.
    pub fn plus(&self, other: &U256) -> (r: U256)
        requires
            self.value() + other.value() < base() * base() * base() * base(),
        ensures
            r.value() == self.value() + other.value(),
    {
        let s0: u128 = self.l0 as u128 + other.l0 as u128;
        let r0: u64 = (s0 % 0x1_0000_0000_0000_0000) as u64;
        let c0: u128 = s0 / 0x1_0000_0000_0000_0000;
        let s1: u128 = self.l1 as u128 + other.l1 as u128 + c0;
        let r1: u64 = (s1 % 0x1_0000_0000_0000_0000) as u64;
        let c1: u128 = s1 / 0x1_0000_0000_0000_0000;
        let s2: u128 = self.l2 as u128 + other.l2 as u128 + c1;
        let r2: u64 = (s2 % 0x1_0000_0000_0000_0000) as u64;
        let c2: u128 = s2 / 0x1_0000_0000_0000_0000;
        let s3: u128 = self.l3 as u128 + other.l3 as u128 + c2;
        assert(s3 < 0x1_0000_0000_0000_0000) by {
            assert(base() * base() * base() * base() == base() * (base() * (base() * base())))
                by (nonlinear_arith);
        }
        let r3: u64 = s3 as u64;
        U256 { l0: r0, l1: r1, l2: r2, l3: r3 }
    }

    /// The difference of two numbers, the first at least the second.
    pub fn minus(&self, other: &U256) -> (r: U256)
        requires
            self.value() >= other.value(),
        ensures
            r.value() == self.value() - other.value(),
    {
        let t0: u128 = 0x1_0000_0000_0000_0000 + self.l0 as u128 - other.l0 as u128;
        let r0: u64 = (t0 % 0x1_0000_0000_0000_0000) as u64;
        let b0: u128 = 1 - t0 / 0x1_0000_0000_0000_0000;
        let t1: u128 = 0x1_0000_0000_0000_0000 + self.l1 as u128 - other.l1 as u128 - b0;
        let r1: u64 = (t1 % 0x1_0000_0000_0000_0000) as u64;
        let b1: u128 = 1 - t1 / 0x1_0000_0000_0000_0000;
        let t2: u128 = 0x1_0000_0000_0000_0000 + self.l2 as u128 - other.l2 as u128 - b1;
        let r2: u64 = (t2 % 0x1_0000_0000_0000_0000) as u64;
        let b2: u128 = 1 - t2 / 0x1_0000_0000_0000_0000;
        let t3: u128 = 0x1_0000_0000_0000_0000 + self.l3 as u128 - other.l3 as u128 - b2;
        assert(t3 >= 0x1_0000_0000_0000_0000);
        let r3: u64 = (t3 - 0x1_0000_0000_0000_0000) as u64;
        U256 { l0: r0, l1: r1, l2: r2, l3: r3 }
    }

    /// Whether the number is odd.
    pub fn is_odd(&self) -> (r: bool)
        ensures
            r == (self.value() % 2 == 1),
    {
        self.l0 % 2 == 1
    }

    /// Half the number, rounded down.
    pub fn half(&self) -> (r: U256)
        ensures
            r.value() == self.value() / 2,
    {
        let r0: u64 = self.l0 / 2 + (self.l1 % 2) * 0x8000_0000_0000_0000;
        let r1: u64 = self.l1 / 2 + (self.l2 % 2) * 0x8000_0000_0000_0000;
        let r2: u64 = self.l2 / 2 + (self.l3 % 2) * 0x8000_0000_0000_0000;
        let r3: u64 = self.l3 / 2;
        U256 { l0: r0, l1: r1, l2: r2, l3: r3 }
    }

    /// The number divided by 256, rounded down.
    pub fn without_low_byte(&self) -> (r: U256)
        ensures
            r.value() == self.value() / 256,
    {
        let r0: u64 = self.l0 / 256 + (self.l1 % 256) * 0x100_0000_0000_0000;
        let r1: u64 = self.l1 / 256 + (self.l2 % 256) * 0x100_0000_0000_0000;
        let r2: u64 = self.l2 / 256 + (self.l3 % 256) * 0x100_0000_0000_0000;
        let r3: u64 = self.l3 / 256;
        U256 { l0: r0, l1: r1, l2: r2, l3: r3 }
    }

    /// The number times 256 plus a byte, where that stays below 2 to the
    /// power 256.
    pub fn with_low_byte(&self, b: u8) -> (r: U256)
        requires
            self.l3 < 0x100_0000_0000_0000,
        ensures
            r.value() == self.value() * 256 + b,
    {
        let r0: u64 = (self.l0 % 0x100_0000_0000_0000) * 256 + b as u64;
        let r1: u64 = (self.l1 % 0x100_0000_0000_0000) * 256 + self.l0 / 0x100_0000_0000_0000;
        let r2: u64 = (self.l2 % 0x100_0000_0000_0000) * 256 + self.l1 / 0x100_0000_0000_0000;
        let r3: u64 = self.l3 * 256 + self.l2 / 0x100_0000_0000_0000;
        U256 { l0: r0, l1: r1, l2: r2, l3: r3 }
    }
}

} // verus!
