//! Wires of the arithmetic circuit.

use vstd::prelude::*;
use crate::text::{dec_string, usize_to_dec};

verus! {

/// A wire. The wire `ONE` always carries the value 1; every other wire is
/// told apart by a number.
#[derive(Clone, Copy, PartialEq, Eq, Structural, Debug, Hash, PartialOrd, Ord)]
pub struct FlatVariable {
    pub id: usize,
}

impl FlatVariable {
    /// The wire with the given number.
    pub fn new(id: usize) -> (r: FlatVariable)
        requires
            id < usize::MAX,
        ensures
            r.id == id + 1,
            !r.is_one(),
    {
        FlatVariable { id: id + 1 }
    }

    /// The wire that carries 1.
    pub fn one() -> (r: FlatVariable)
        ensures
            r.id == 0,
            r.is_one(),
    {
        FlatVariable { id: 0 }
    }

    /// Whether this is the wire that carries 1.
    #[verifier::when_used_as_spec(spec_is_one)]
    pub fn is_one(&self) -> (r: bool)
        ensures
            r == self.spec_is_one(),
    {
        self.id == 0
    }

    pub open spec fn spec_is_one(&self) -> bool {
        self.id == 0
    }

    /// The wire total order: `ONE` first, then by number.
    pub open spec fn before(&self, other: &FlatVariable) -> bool {
        self.id < other.id
    }

    /// How the wire is written: `~one`, or `_` and its number.
    pub open spec fn display(&self) -> Seq<char> {
        if self.id == 0 {
            "~one"@
        } else {
            "_"@ + dec_string((self.id - 1) as nat)
        }
    }

    pub fn to_string(&self) -> (r: String)
        ensures
            r@ == self.display(),
    {
        if self.id == 0 {
            String::from_str("~one")
        } else {
            let mut s = String::from_str("_");
            let n = usize_to_dec(self.id - 1);
            s.append(n.as_str());
            s
        }
    }
}

} // verus!
