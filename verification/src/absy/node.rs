//! Values of the syntax tree together with the stretch of source text they
//! come from.

use vstd::prelude::*;
use vstd::std_specs::cmp::{PartialEqSpec, PartialEqSpecImpl};
use crate::parser::Position;

verus! {

/// A value and where it starts and ends in the source text.
#[derive(Debug)]
pub struct Node<T> {
    pub start: Position,
    pub end: Position,
    pub value: T,
}

impl<T> Node<T> {
    pub fn pos(&self) -> (r: (Position, Position))
        ensures
            r == (self.start, self.end),
    {
        (self.start, self.end)
    }

    pub fn new(start: Position, end: Position, value: T) -> (r: Node<T>)
        ensures
            r == (Node { start, end, value }),
    {
        Node { start, end, value }
    }

    /// The value at the position that stands for no source text.
    pub fn from(value: T) -> (r: Node<T>)
        ensures
            r == (Node { start: Position { col: 42, line: 42 }, end: Position { col: 42, line: 42 }, value }),
    {
        let mock_position = Position { col: 42, line: 42 };
        Node::new(mock_position, mock_position, value)
    }
}

impl<T: PartialEq> PartialEq for Node<T> {
    /// Two nodes are equal when their values are, wherever they stand.
    fn eq(&self, other: &Node<T>) -> (r: bool) {
        self.value == other.value
    }
}

impl<T: PartialEq> PartialEqSpecImpl for Node<T> {
    open spec fn obeys_eq_spec() -> bool {
        T::obeys_eq_spec()
    }

    open spec fn eq_spec(&self, other: &Node<T>) -> bool {
        self.value.eq_spec(&other.value)
    }
}

/// What can stand in a node.
pub trait NodeValue: Sized {
    /// The value in a node that starts at the given line and column and is
    /// `delta` columns long.
    fn at(self, line: usize, col: usize, delta: isize) -> (r: Node<Self>)
        requires
            0 <= col + delta <= usize::MAX,
        ensures
            r == (Node {
                start: Position { line, col },
                end: Position { line, col: (col + delta) as usize },
                value: self,
            }),
    {
        let start = Position { col, line };
        Node::new(start, start.col(delta), self)
    }

    /// The value in a node that starts and ends at the given positions.
    fn start_end(self, start: Position, end: Position) -> (r: Node<Self>)
        ensures
            r == (Node { start, end, value: self }),
    {
        Node::new(start, end, self)
    }

    /// The value in a node at the position that stands for no source text.
    fn mock(self) -> (r: Node<Self>)
        ensures
            r == (Node { start: Position { line: 42, col: 42 }, end: Position { line: 42, col: 42 }, value: self }),
    {
        Node::new(Position::mock(), Position::mock(), self)
    }
}

} // verus!
