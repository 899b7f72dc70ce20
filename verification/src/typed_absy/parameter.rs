//! Parameters of typed functions.

use vstd::prelude::*;
use crate::typed_absy::variable::{Variable, VariableView};

verus! {

/// A parameter of a function: a variable, private or public.
#[derive(Debug, PartialEq, Eq)]
pub struct Parameter {
    pub id: Variable,
    pub private: bool,
}

pub struct ParameterView {
    pub id: VariableView,
    pub private: bool,
}

impl View for Parameter {
    type V = ParameterView;

    open spec fn view(&self) -> ParameterView {
        ParameterView { id: self.id@, private: self.private }
    }
}

impl ParameterView {
    /// How the parameter is written.
    pub open spec fn display(self) -> Seq<char> {
        (if self.private {
            "private "@
        } else {
            Seq::empty()
        }) + self.id.display()
    }
}

impl Parameter {
    pub fn public(v: Variable) -> (r: Parameter)
        ensures
            r@ == (ParameterView { id: v@, private: false }),
    {
        Parameter { id: v, private: false }
    }

    pub fn private(v: Variable) -> (r: Parameter)
        ensures
            r@ == (ParameterView { id: v@, private: true }),
    {
        Parameter { id: v, private: true }
    }

    pub fn to_string(&self) -> (r: String)
        ensures
            r@ == self@.display(),
    {
        let mut s = if self.private {
            String::from_str("private ")
        } else {
            String::new()
        };
        let v = self.id.to_string();
        s.append(v.as_str());
        s
    }
}

impl Clone for Parameter {
    fn clone(&self) -> (r: Self)
        ensures
            r@ == self@,
    {
        Parameter { id: self.id.clone(), private: self.private }
    }
}

} // verus!
