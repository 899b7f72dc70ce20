//! Identifiers of variables in the typed program.

use vstd::prelude::*;
use crate::text::{dec_string, hex_string, join, push_joined, u128_to_hex, u64_to_dec, usize_to_dec};
use crate::typed_absy::types::FunctionKeyHash;

verus! {

/// What an identifier was made from.
#[derive(Debug, PartialEq, Eq)]
pub enum CoreIdentifier {
    /// A name from the source.
    Source(String),
    /// A name the compiler made up: a tag and a counter.
    Internal(String, usize),
    /// The result of a call: the hash of the function key and a counter.
    Call(FunctionKeyHash, usize),
}

pub enum CoreIdentifierView {
    Source(Seq<char>),
    Internal(Seq<char>, nat),
    Call(FunctionKeyHash, nat),
}

impl View for CoreIdentifier {
    type V = CoreIdentifierView;

    open spec fn view(&self) -> CoreIdentifierView {
        match self {
            CoreIdentifier::Source(s) => CoreIdentifierView::Source(s@),
            CoreIdentifier::Internal(s, i) => CoreIdentifierView::Internal(s@, *i as nat),
            CoreIdentifier::Call(k, i) => CoreIdentifierView::Call(*k, *i as nat),
        }
    }
}

impl CoreIdentifierView {
    /// How the identifier is written.
    pub open spec fn display(self) -> Seq<char> {
        match self {
            CoreIdentifierView::Source(s) => s,
            CoreIdentifierView::Internal(s, i) => "#INTERNAL#_"@ + s + "_"@ + dec_string(i),
            CoreIdentifierView::Call(k, i) => hex_string(k as nat) + "_"@ + dec_string(i),
        }
    }
}

impl CoreIdentifier {
    pub fn to_string(&self) -> (r: String)
        ensures
            r@ == self@.display(),
    {
        match self {
            CoreIdentifier::Source(s) => s.clone(),
            CoreIdentifier::Internal(s, i) => {
                let mut out = String::from_str("#INTERNAL#_");
                out.append(s.as_str());
                out.append("_");
                let n = usize_to_dec(*i);
                out.append(n.as_str());
                out
            },
            CoreIdentifier::Call(k, i) => {
                let mut out = u128_to_hex(*k as u128);
                out.append("_");
                let n = usize_to_dec(*i);
                out.append(n.as_str());
                out
            },
        }
    }
}

impl Clone for CoreIdentifier {
    fn clone(&self) -> (r: Self)
        ensures
            r@ == self@,
    {
        match self {
            CoreIdentifier::Source(s) => CoreIdentifier::Source(s.clone()),
            CoreIdentifier::Internal(s, i) => CoreIdentifier::Internal(s.clone(), *i),
            CoreIdentifier::Call(k, i) => CoreIdentifier::Call(*k, *i),
        }
    }
}

/// One entry of a call stack: the module, the hash of the function key, and
/// a counter.
pub type Frame = (String, FunctionKeyHash, usize);

/// The identifier of a variable.
#[derive(Debug, PartialEq, Eq)]
pub struct Identifier {
    /// What the identifier was made from.
    pub id: CoreIdentifier,
    /// The version of the variable, once the program is in single assignment
    /// form.
    pub version: usize,
    /// The calls the variable was inlined through.
    pub stack: Vec<Frame>,
}

pub struct IdentifierView {
    pub id: CoreIdentifierView,
    pub version: nat,
    pub stack: Seq<(Seq<char>, FunctionKeyHash, nat)>,
}

/// The views of the frames of a call stack.
pub open spec fn stack_view(stack: Seq<Frame>) -> Seq<(Seq<char>, FunctionKeyHash, nat)> {
    Seq::new(stack.len(), |i: int| (stack[i].0@, stack[i].1, stack[i].2 as nat))
}

impl View for Identifier {
    type V = IdentifierView;

    open spec fn view(&self) -> IdentifierView {
        IdentifierView {
            id: self.id@,
            version: self.version as nat,
            stack: stack_view(self.stack@),
        }
    }
}

impl IdentifierView {
    /// The identifier a source name stands for.
    pub open spec fn source(name: Seq<char>) -> IdentifierView {
        IdentifierView { id: CoreIdentifierView::Source(name), version: 0, stack: Seq::empty() }
    }

    /// How one frame is written.
    pub open spec fn frame_display(frame: (Seq<char>, FunctionKeyHash, nat)) -> Seq<char> {
        frame.0 + "_"@ + dec_string(frame.1 as nat) + "_"@ + dec_string(frame.2)
    }

    /// How the identifier is written: a plain identifier as what it was made
    /// from; one with a version or a call stack with both written out.
    pub open spec fn display(self) -> Seq<char> {
        if self.stack.len() == 0 && self.version == 0 {
            self.id.display()
        } else {
            join(Seq::new(self.stack.len(), |i: int| Self::frame_display(self.stack[i])), "_"@)
                + "_"@ + self.id.display() + "_"@ + dec_string(self.version)
        }
    }
}

impl Identifier {
    /// The identifier a source name stands for.
    pub fn from(name: &str) -> (r: Identifier)
        ensures
            r@ == IdentifierView::source(name@),
    {
        let r = Identifier {
            id: CoreIdentifier::Source(String::from_str(name)),
            version: 0,
            stack: Vec::new(),
        };
        assert(r@.stack =~= Seq::empty());
        r
    }

    /// The identifier made from `id`, in its first version and outside any
    /// call.
    pub fn from_core(id: CoreIdentifier) -> (r: Identifier)
        ensures
            r@ == (IdentifierView { id: id@, version: 0, stack: Seq::empty() }),
    {
        let r = Identifier { id, version: 0, stack: Vec::new() };
        assert(r@.stack =~= Seq::empty());
        r
    }

    pub fn version(self, version: usize) -> (r: Identifier)
        ensures
            r@ == (IdentifierView { version: version as nat, ..self@ }),
    {
        Identifier { id: self.id, version, stack: self.stack }
    }

    pub fn stack(self, stack: Vec<Frame>) -> (r: Identifier)
        ensures
            r@ == (IdentifierView { stack: stack_view(stack@), ..self@ }),
    {
        Identifier { id: self.id, version: self.version, stack }
    }

    pub fn to_string(&self) -> (r: String)
        ensures
            r@ == self@.display(),
    {
        if self.stack.len() == 0 && self.version == 0 {
            self.id.to_string()
        } else {
            let mut list = String::new();
            let mut i: usize = 0;
            let ghost frames = self@.stack;
            let ghost items = Seq::new(
                frames.len(),
                |i: int| IdentifierView::frame_display(frames[i]),
            );
            assert(items.take(0) =~= Seq::<Seq<char>>::empty());
            while i < self.stack.len()
                invariant
                    i <= self.stack.len(),
                    frames == self@.stack,
                    items == Seq::new(
                        frames.len(),
                        |i: int| IdentifierView::frame_display(frames[i]),
                    ),
                    list@ == join(items.take(i as int), "_"@),
                decreases self.stack.len() - i,
            {
                let frame = &self.stack[i];
                let mut item = frame.0.clone();
                item.append("_");
                let hash = u64_to_dec(frame.1);
                item.append(hash.as_str());
                item.append("_");
                let count = usize_to_dec(frame.2);
                item.append(count.as_str());
                proof {
                    assert(items.take(i + 1).drop_last() =~= items.take(i as int));
                }
                push_joined(&mut list, i, "_", item.as_str(), Ghost(items.take(i + 1)));
                i += 1;
            }
            assert(items.take(i as int) =~= items);
            list.append("_");
            let id = self.id.to_string();
            list.append(id.as_str());
            list.append("_");
            let version = usize_to_dec(self.version);
            list.append(version.as_str());
            list
        }
    }
}

impl Clone for Identifier {
    fn clone(&self) -> (r: Self)
        ensures
            r@ == self@,
    {
        let mut stack: Vec<Frame> = Vec::new();
        let mut i: usize = 0;
        while i < self.stack.len()
            invariant
                i <= self.stack.len(),
                stack.len() == i,
                forall|j: int|
                    0 <= j < i ==> stack[j].0@ == self.stack[j].0@ && stack[j].1 == self.stack[j].1
                        && stack[j].2 == self.stack[j].2,
            decreases self.stack.len() - i,
        {
            let frame = &self.stack[i];
            stack.push((frame.0.clone(), frame.1, frame.2));
            i += 1;
        }
        assert(stack_view(stack@) =~= stack_view(self.stack@));
        Identifier { id: self.id.clone(), version: self.version, stack }
    }
}

} // verus!
