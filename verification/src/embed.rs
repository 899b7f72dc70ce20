//! Built-in gadgets. To the analyser a gadget is a function symbol that
//! comes with its signature; what it computes is decided elsewhere.

use vstd::prelude::*;
use crate::typed_absy::types::{Signature, SignatureView};

verus! {

/// A built-in gadget.
#[derive(Debug, PartialEq, Eq)]
pub struct FlatEmbed {
    pub id: String,
    pub signature: Signature,
}

pub struct FlatEmbedView {
    pub id: Seq<char>,
    pub signature: SignatureView,
}

impl View for FlatEmbed {
    type V = FlatEmbedView;

    open spec fn view(&self) -> FlatEmbedView {
        FlatEmbedView { id: self.id@, signature: self.signature@ }
    }
}

impl FlatEmbed {
    pub fn new(id: &str, signature: Signature) -> (r: FlatEmbed)
        ensures
            r@ == (FlatEmbedView { id: id@, signature: signature@ }),
    {
        FlatEmbed { id: String::from_str(id), signature }
    }

    /// The signature the gadget comes with.
    pub fn signature(&self) -> (r: Signature)
        ensures
            r@ == self@.signature,
    {
        self.signature.clone()
    }
}

impl Clone for FlatEmbed {
    fn clone(&self) -> (r: Self)
        ensures
            r@ == self@,
    {
        FlatEmbed { id: self.id.clone(), signature: self.signature.clone() }
    }
}

} // verus!
