//! Positions in the source text.

use vstd::prelude::*;
use crate::text::{dec_string, usize_to_dec};

verus! {

/// A place in the source text.
#[derive(Clone, Copy, PartialEq, Eq, Structural, Debug, Hash, PartialOrd, Ord)]
pub struct Position {
    pub line: usize,
    pub col: usize,
}

impl Position {
    /// The position `delta` columns further on the same line.
    pub fn col(&self, delta: isize) -> (r: Position)
        requires
            0 <= self.col + delta <= usize::MAX,
        ensures
            r.line == self.line,
            r.col == self.col + delta,
    {
        let col = if delta >= 0 {
            self.col + (delta as usize)
        } else {
            self.col - ((-(delta as i128)) as usize)
        };
        Position { line: self.line, col }
    }

    /// A position for values that come from no source text.
    pub fn mock() -> (r: Position)
        ensures
            r == (Position { line: 42, col: 42 }),
    {
        Position { line: 42, col: 42 }
    }

    /// How the position is written: line, colon, column.
    pub open spec fn display(&self) -> Seq<char> {
        dec_string(self.line as nat) + ":"@ + dec_string(self.col as nat)
    }

    pub fn to_string(&self) -> (r: String)
        ensures
            r@ == self.display(),
    {
        let mut s = usize_to_dec(self.line);
        s.append(":");
        s.append(usize_to_dec(self.col).as_str());
        s
    }
}

} // verus!
