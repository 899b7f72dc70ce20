//! Types as the source names them, before user-defined names are resolved.

use vstd::prelude::*;
use crate::absy::node::{Node, NodeValue};
use crate::text::{dec_string, usize_to_dec};
use crate::typed_absy::types::UBitwidth;

verus! {

pub type UserTypeId = String;

pub type UnresolvedTypeNode = Node<UnresolvedType>;

/// A type as the source names it.
#[derive(Debug, PartialEq)]
pub enum UnresolvedType {
    FieldElement,
    Boolean,
    Uint(UBitwidth),
    Array(Box<UnresolvedTypeNode>, usize),
    User(UserTypeId),
}

impl NodeValue for UnresolvedType {

}

impl UnresolvedType {
    pub fn array(ty: UnresolvedTypeNode, size: usize) -> (r: UnresolvedType)
        ensures
            r == UnresolvedType::Array(Box::new(ty), size),
    {
        UnresolvedType::Array(Box::new(ty), size)
    }

    /// How the type is written.
    pub open spec fn display(&self) -> Seq<char>
        decreases self,
    {
        match self {
            UnresolvedType::FieldElement => "field"@,
            UnresolvedType::Boolean => "bool"@,
            UnresolvedType::Uint(w) => "u"@ + dec_string(w.bits()),
            UnresolvedType::Array(ty, size) => ty.value.display() + "["@ + dec_string(
                *size as nat,
            ) + "]"@,
            UnresolvedType::User(name) => name@,
        }
    }

    pub fn to_string(&self) -> (r: String)
        ensures
            r@ == self.display(),
        decreases self,
    {
        match self {
            UnresolvedType::FieldElement => String::from_str("field"),
            UnresolvedType::Boolean => String::from_str("bool"),
            UnresolvedType::Uint(w) => {
                let mut s = String::from_str("u");
                s.append(usize_to_dec(w.to_usize()).as_str());
                s
            },
            UnresolvedType::Array(ty, size) => {
                let mut s = ty.value.to_string();
                s.append("[");
                s.append(usize_to_dec(*size).as_str());
                s.append("]");
                s
            },
            UnresolvedType::User(name) => name.clone(),
        }
    }
}

/// A signature as the source names it.
#[derive(Debug, PartialEq)]
pub struct UnresolvedSignature {
    pub inputs: Vec<UnresolvedTypeNode>,
    pub outputs: Vec<UnresolvedTypeNode>,
}

impl UnresolvedSignature {
    pub fn new() -> (r: UnresolvedSignature)
        ensures
            r.inputs@.len() == 0,
            r.outputs@.len() == 0,
    {
        UnresolvedSignature { inputs: Vec::new(), outputs: Vec::new() }
    }

    pub fn inputs(self, inputs: Vec<UnresolvedTypeNode>) -> (r: UnresolvedSignature)
        ensures
            r.inputs == inputs,
            r.outputs == self.outputs,
    {
        UnresolvedSignature { inputs, outputs: self.outputs }
    }

    pub fn outputs(self, outputs: Vec<UnresolvedTypeNode>) -> (r: UnresolvedSignature)
        ensures
            r.inputs == self.inputs,
            r.outputs == outputs,
    {
        UnresolvedSignature { inputs: self.inputs, outputs }
    }
}

} // verus!
